//! The sizes of the sections of an artifact, read from the report of the
//! size tool, and the symbol definitions made of them.

use vstd::prelude::*;

verus! {

/// The size of one section of a linked artifact.
#[derive(Debug)]
pub struct SectionSize {
    /// The section's name, without the dot that leads it.
    pub name: String,
    /// The section's size in bytes.
    pub size: u32,
}

/// The sizes of the sections of one artifact, each section named once, in
/// the order in which the sections were first reported.
#[derive(Debug)]
pub struct SectionSizeTable {
    entries: Vec<SectionSize>,
}

/// The section that a line of the size report denotes: the line begins with
/// a dot and has two fields or more, the first is the dotted name, the second
/// the size. Any other line denotes none.
pub open spec fn section_of(line: Seq<char>) -> Option<(Seq<char>, u32)> {
    let fields = crate::text::fields_of(line);
    if line.len() > 0 && line[0] == '.' && fields.len() >= 2 {
        match crate::text::number_of(fields[1]) {
            Some(size) => Some((fields[0].skip(1), size)),
            None => None,
        }
    } else {
        None
    }
}

/// The number of entries before the first one for `name`; the number of all
/// entries where there is none.
pub open spec fn name_index(entries: Seq<(Seq<char>, u32)>, name: Seq<char>) -> nat
    decreases entries.len(),
{
    if entries.len() == 0 || entries[0].0 == name {
        0
    } else {
        1 + name_index(entries.skip(1), name)
    }
}

/// The entries after `name` was reported with `size`: the entry for `name`
/// now holds `size`, a new name is added at the end.
pub open spec fn record(entries: Seq<(Seq<char>, u32)>, name: Seq<char>, size: u32) -> Seq<
    (Seq<char>, u32),
> {
    let at = name_index(entries, name) as int;
    if at < entries.len() {
        entries.update(at, (name, size))
    } else {
        entries.push((name, size))
    }
}

/// The entries that a size report gives, line by line; a line that denotes
/// no section changes nothing.
pub open spec fn table_of(lines: Seq<Seq<char>>) -> Seq<(Seq<char>, u32)>
    decreases lines.len(),
{
    if lines.len() == 0 {
        Seq::empty()
    } else {
        let before = table_of(lines.drop_last());
        match section_of(lines.last()) {
            Some((name, size)) => record(before, name, size),
            None => before,
        }
    }
}

/// No two entries have the same name.
pub open spec fn distinct_names(entries: Seq<(Seq<char>, u32)>) -> bool {
    forall|i: int, j: int|
        0 <= i < entries.len() && 0 <= j < entries.len() && i != j ==> (#[trigger] entries[i]).0
            != (#[trigger] entries[j]).0
}

/// `name_index` stays within the entries, passes over no entry for the name
/// and stops on one.
pub proof fn lemma_name_index(entries: Seq<(Seq<char>, u32)>, name: Seq<char>)
    ensures
        name_index(entries, name) <= entries.len(),
        forall|j: int| 0 <= j < name_index(entries, name) ==> (#[trigger] entries[j]).0 != name,
        name_index(entries, name) < entries.len() ==> entries[name_index(entries, name) as int].0
            == name,
    decreases entries.len(),
{
    if entries.len() == 0 || entries[0].0 == name {
    } else {
        let rest = entries.skip(1);
        lemma_name_index(rest, name);
        assert forall|j: int| 0 <= j < name_index(entries, name) implies (#[trigger] entries[j]).0
            != name by {
            if j > 0 {
                assert(entries[j] == rest[j - 1]);
            }
        }
    }
}

/// The position that has these three properties is the one `name_index`
/// names.
pub proof fn lemma_name_index_unique(entries: Seq<(Seq<char>, u32)>, name: Seq<char>, k: int)
    requires
        0 <= k <= entries.len(),
        forall|j: int| 0 <= j < k ==> (#[trigger] entries[j]).0 != name,
        k < entries.len() ==> entries[k].0 == name,
    ensures
        name_index(entries, name) == k,
    decreases entries.len(),
{
    if entries.len() == 0 || entries[0].0 == name {
        if k > 0 {
            assert(entries[0].0 != name);
        }
    } else {
        let rest = entries.skip(1);
        assert forall|j: int| 0 <= j < k - 1 implies (#[trigger] rest[j]).0 != name by {
            assert(rest[j] == entries[j + 1]);
        }
        lemma_name_index_unique(rest, name, k - 1);
    }
}

/// Recording a section keeps the names distinct.
pub proof fn lemma_record_distinct(entries: Seq<(Seq<char>, u32)>, name: Seq<char>, size: u32)
    requires
        distinct_names(entries),
    ensures
        distinct_names(record(entries, name, size)),
{
    lemma_name_index(entries, name);
    let after = record(entries, name, size);
    let at = name_index(entries, name) as int;
    assert forall|i: int, j: int|
        0 <= i < after.len() && 0 <= j < after.len() && i != j implies (#[trigger] after[i]).0 != (
        #[trigger] after[j]).0 by {
        if at < entries.len() {
            assert(after[i].0 == entries[i].0);
            assert(after[j].0 == entries[j].0);
        } else {
            if i < entries.len() {
                assert(after[i] == entries[i]);
            }
            if j < entries.len() {
                assert(after[j] == entries[j]);
            }
        }
    }
}

/// The entries of a size report have distinct names.
pub proof fn lemma_table_distinct(lines: Seq<Seq<char>>)
    ensures
        distinct_names(table_of(lines)),
    decreases lines.len(),
{
    if lines.len() > 0 {
        lemma_table_distinct(lines.drop_last());
        match section_of(lines.last()) {
            Some((name, size)) => {
                lemma_record_distinct(table_of(lines.drop_last()), name, size);
            },
            None => {},
        }
    }
}

impl View for SectionSizeTable {
    type V = Seq<(Seq<char>, u32)>;

    closed spec fn view(&self) -> Seq<(Seq<char>, u32)> {
        Seq::new(self.entries@.len(), |i: int| (self.entries@[i].name@, self.entries@[i].size))
    }
}

impl SectionSizeTable {
    /// The table names each section once.
    pub open spec fn wf(&self) -> bool {
        distinct_names(self@)
    }

    /// Returns a table without entries.
    pub fn new() -> (table: SectionSizeTable)
        ensures
            table@ == Seq::<(Seq<char>, u32)>::empty(),
            table.wf(),
    {
        let table = SectionSizeTable { entries: Vec::new() };
        assert(table@ =~= Seq::<(Seq<char>, u32)>::empty());
        table
    }

    /// Returns the number of sections.
    pub fn len(&self) -> (n: usize)
        ensures
            n == self@.len(),
    {
        self.entries.len()
    }

    /// Returns the name of the section at `index`.
    pub fn name(&self, index: usize) -> (name: &str)
        requires
            index < self@.len(),
        ensures
            name@ == self@[index as int].0,
    {
        self.entries[index].name.as_str()
    }

    /// Returns the size of the section at `index`.
    pub fn size(&self, index: usize) -> (size: u32)
        requires
            index < self@.len(),
        ensures
            size == self@[index as int].1,
    {
        self.entries[index].size
    }

    /// Returns the size recorded for `name`, if the table has the section.
    pub fn get(&self, name: &str) -> (size: Option<u32>)
        ensures
            match size {
                Some(size) => name_index(self@, name@) < self@.len() && self@[name_index(
                    self@,
                    name@,
                ) as int] == (name@, size),
                None => name_index(self@, name@) == self@.len(),
            },
    {
        let at = self.position(name);
        if at < self.entries.len() {
            proof {
                lemma_name_index(self@, name@);
            }
            Some(self.entries[at].size)
        } else {
            None
        }
    }

    /// Returns where the entry for `name` stands, or the number of entries
    /// where the table has none.
    pub fn position(&self, name: &str) -> (at: usize)
        ensures
            at == name_index(self@, name@),
            at <= self@.len(),
    {
        let wanted = String::from_str(name);
        let mut at: usize = 0;
        let mut found = false;
        while at < self.entries.len() && !found
            invariant
                at <= self.entries@.len(),
                wanted@ == name@,
                forall|j: int| 0 <= j < at ==> (#[trigger] self@[j]).0 != name@,
                found ==> at < self.entries@.len() && self@[at as int].0 == name@,
            decreases self.entries@.len() - at + if found { 0int } else { 1int },
        {
            if self.entries[at].name == wanted {
                found = true;
            } else {
                assert(self@[at as int].0 != name@);
                at += 1;
            }
        }
        proof {
            lemma_name_index_unique(self@, name@, at as int);
        }
        at
    }

    /// Records that the section `name` has `size` bytes.
    pub fn insert(&mut self, name: String, size: u32)
        requires
            old(self).wf(),
        ensures
            final(self)@ == record(old(self)@, name@, size),
            final(self).wf(),
    {
        let at = self.position(name.as_str());
        proof {
            lemma_record_distinct(self@, name@, size);
        }
        if at < self.entries.len() {
            self.entries.set(at, SectionSize { name, size });
        } else {
            self.entries.push(SectionSize { name, size });
        }
        assert(self@ =~= record(old(self)@, name@, size));
    }
}

/// Reads one line of the size report.
pub fn section(line: &str) -> (found: Option<SectionSize>)
    ensures
        match found {
            Some(entry) => section_of(line@) == Some((entry.name@, entry.size)),
            None => section_of(line@) is None,
        },
{
    let chars = crate::text::to_chars(line);
    if chars.len() == 0 || chars[0] != '.' {
        return None;
    }
    let parts = crate::text::fields(line);
    if parts.len() < 2 {
        return None;
    }
    assert(crate::text::views(parts@)[0] == parts@[0]@);
    assert(crate::text::views(parts@)[1] == parts@[1]@);
    match crate::text::parse_u32(parts[1].as_str()) {
        Some(size) => {
            let dotted = crate::text::to_chars(parts[0].as_str());
            proof {
                crate::text::lemma_fields_not_empty(line@, 0);
            }
            let name = crate::text::string_of(&dotted, 1, dotted.len());
            assert(name@ =~= crate::text::fields_of(line@)[0].skip(1));
            Some(SectionSize { name, size })
        },
        None => None,
    }
}

/// Reads the report of the size tool: one entry for each section that the
/// report names, with the size of the last line that names it. Lines that
/// denote no section are passed over.
pub fn run_size(report: &str) -> (table: SectionSizeTable)
    ensures
        table@ == table_of(crate::text::lines_of(report@)),
        table.wf(),
{
    let all = crate::text::lines(report);
    let mut table = SectionSizeTable::new();
    let mut at: usize = 0;
    let ghost texts = crate::text::views(all@);
    assert(texts.take(0) =~= Seq::<Seq<char>>::empty());
    while at < all.len()
        invariant
            at <= all.len(),
            texts == crate::text::views(all@),
            table@ == table_of(texts.take(at as int)),
            table.wf(),
        decreases all.len() - at,
    {
        proof {
            assert(texts.take(at + 1).drop_last() =~= texts.take(at as int));
            assert(texts.take(at + 1).last() == all@[at as int]@);
        }
        match section(all[at].as_str()) {
            Some(entry) => {
                table.insert(entry.name, entry.size);
            },
            None => {},
        }
        at += 1;
    }
    assert(texts.take(at as int) =~= texts);
    table
}

/// The argument that defines the size symbol of a section.
pub open spec fn defsym_of(name: Seq<char>, size: u32) -> Seq<char> {
    "--defsym=_"@ + name + "_section_size="@ + crate::text::decimal_of(size as nat)
}

/// The symbol definitions of the entries, one for one.
pub open spec fn defsyms_of(entries: Seq<(Seq<char>, u32)>) -> Seq<Seq<char>> {
    Seq::new(entries.len(), |i: int| defsym_of(entries[i].0, entries[i].1))
}

/// Returns the argument `--defsym=_<name>_section_size=<size>`.
pub fn defsym(name: &str, size: u32) -> (arg: String)
    ensures
        arg@ == defsym_of(name@, size),
{
    let mut arg = String::from_str("--defsym=_");
    arg.append(name);
    arg.append("_section_size=");
    crate::text::push_decimal(&mut arg, size as u64);
    arg
}

/// Returns one symbol definition for each section of the table, in the
/// table's order.
pub fn defsym_args(table: &SectionSizeTable) -> (args: Vec<String>)
    ensures
        crate::text::views(args@) == defsyms_of(table@),
{
    let mut args: Vec<String> = Vec::new();
    let mut at: usize = 0;
    while at < table.len()
        invariant
            at <= table@.len(),
            args@.len() == at,
            forall|i: int| 0 <= i < at ==> (#[trigger] args@[i])@ == defsym_of(
                table@[i].0,
                table@[i].1,
            ),
        decreases table@.len() - at,
    {
        args.push(defsym(table.name(at), table.size(at)));
        at += 1;
    }
    assert(crate::text::views(args@) =~= defsyms_of(table@));
    args
}

/// The name of the section that a line denotes.
pub open spec fn name_of(line: Seq<char>) -> Seq<char> {
    match section_of(line) {
        Some(entry) => entry.0,
        None => Seq::empty(),
    }
}

/// The size of the section that a line denotes.
pub open spec fn size_of(line: Seq<char>) -> u32 {
    match section_of(line) {
        Some(entry) => entry.1,
        None => 0,
    }
}

/// A report whose lines all denote sections, no two of them the same one,
/// gives as many symbol definitions as it has lines, and the definition at
/// each place is that of the line at that place.
pub proof fn lemma_well_formed_report(lines: Seq<Seq<char>>)
    requires
        forall|i: int| 0 <= i < lines.len() ==> section_of(#[trigger] lines[i]) is Some,
        forall|i: int, j: int|
            0 <= i < lines.len() && 0 <= j < lines.len() && i != j ==> name_of(
                #[trigger] lines[i],
            ) != name_of(#[trigger] lines[j]),
    ensures
        table_of(lines).len() == lines.len(),
        forall|i: int| 0 <= i < lines.len() ==> Some(#[trigger] table_of(lines)[i]) == section_of(lines[i]),
        defsyms_of(table_of(lines)).len() == lines.len(),
        forall|i: int|
            0 <= i < lines.len() ==> #[trigger] defsyms_of(table_of(lines))[i] == defsym_of(
                name_of(lines[i]),
                size_of(lines[i]),
            ),
    decreases lines.len(),
{
    if lines.len() > 0 {
        let front = lines.drop_last();
        assert forall|i: int| 0 <= i < front.len() implies section_of(#[trigger] front[i]) is Some by {
            assert(front[i] == lines[i]);
        }
        assert forall|i: int, j: int|
            0 <= i < front.len() && 0 <= j < front.len() && i != j implies name_of(
            #[trigger] front[i],
        ) != name_of(#[trigger] front[j]) by {
            assert(front[i] == lines[i]);
            assert(front[j] == lines[j]);
        }
        lemma_well_formed_report(front);
        let before = table_of(front);
        let last = lines.len() - 1;
        assert(section_of(lines[last]) is Some);
        let name = name_of(lines.last());
        assert forall|j: int| 0 <= j < before.len() implies (#[trigger] before[j]).0 != name by {
            assert(Some(before[j]) == section_of(front[j]));
            assert(front[j] == lines[j]);
            assert(name_of(lines[j]) != name_of(lines[last]));
        }
        lemma_name_index_unique(before, name, before.len() as int);
        assert forall|i: int| 0 <= i < lines.len() implies Some(#[trigger] table_of(lines)[i])
            == section_of(lines[i]) by {
            if i < last {
                assert(table_of(lines)[i] == before[i]);
                assert(front[i] == lines[i]);
            }
        }
    }
}

/// A line with fewer than two fields, and one whose second field is no
/// number, denote no section; nor does a line that does not begin with a dot.
pub proof fn lemma_malformed_lines(line: Seq<char>)
    ensures
        crate::text::fields_of(line).len() < 2 ==> section_of(line) is None,
        crate::text::fields_of(line).len() >= 2 && crate::text::number_of(
            crate::text::fields_of(line)[1],
        ) is None ==> section_of(line) is None,
        line.len() == 0 || line[0] != '.' ==> section_of(line) is None,
{
}

/// A line that denotes no section leaves the table as it would be without
/// the line, whatever comes before and after it.
pub proof fn lemma_malformed_line_skipped(
    before: Seq<Seq<char>>,
    line: Seq<char>,
    after: Seq<Seq<char>>,
)
    requires
        section_of(line) is None,
    ensures
        table_of(before + seq![line] + after) == table_of(before + after),
    decreases after.len(),
{
    let with = before + seq![line] + after;
    let without = before + after;
    if after.len() == 0 {
        assert(with.drop_last() =~= before);
        assert(without =~= before);
    } else {
        assert(with.drop_last() =~= before + seq![line] + after.drop_last());
        assert(without.drop_last() =~= before + after.drop_last());
        assert(with.last() == without.last());
        lemma_malformed_line_skipped(before, line, after.drop_last());
    }
}

} // verus!
