//! The path of the linked artifact, found among the arguments of the
//! invocation or in the response files that they name.

use vstd::prelude::*;

verus! {

/// What the search for the output flag found.
#[derive(Debug)]
pub enum Lookup {
    /// No item is the flag.
    Absent,
    /// The flag is the last item: no path follows it.
    Dangling,
    /// The item that follows the first flag.
    Found(String),
}

/// The flag that announces the path of the linked artifact.
pub open spec fn output_flag() -> Seq<char> {
    "-o"@
}

/// Whether one of the items is the output flag.
pub open spec fn has_flag(items: Seq<Seq<char>>) -> bool {
    items.contains(output_flag())
}

/// The item that follows the first output flag.
pub open spec fn after_flag(items: Seq<Seq<char>>) -> Option<Seq<char>> {
    match items.index_of_first(output_flag()) {
        Some(at) => if at + 1 < items.len() {
            Some(items[at + 1])
        } else {
            None
        },
        None => None,
    }
}

/// The first flag is where the first item equal to the flag stands.
pub proof fn lemma_first_flag(items: Seq<Seq<char>>, at: int)
    requires
        0 <= at < items.len(),
        items[at] == output_flag(),
        forall|j: int| 0 <= j < at ==> #[trigger] items[j] != output_flag(),
    ensures
        has_flag(items),
        items.index_of_first(output_flag()) == Some(at),
{
    items.index_of_first_ensures(output_flag());
    assert(items.contains(output_flag()));
}

/// Searches `items` for the output flag and the path behind it.
pub fn lookup_output(items: &Vec<String>) -> (found: Lookup)
    ensures
        match found {
            Lookup::Absent => !has_flag(crate::text::views(items@)),
            Lookup::Dangling => has_flag(crate::text::views(items@)) && after_flag(
                crate::text::views(items@),
            ) is None,
            Lookup::Found(path) => has_flag(crate::text::views(items@)) && after_flag(
                crate::text::views(items@),
            ) == Some(path@),
        },
{
    let flag = String::from_str("-o");
    let ghost texts = crate::text::views(items@);
    let mut at: usize = 0;
    while at < items.len()
        invariant
            at <= items.len(),
            flag@ == output_flag(),
            texts == crate::text::views(items@),
            forall|j: int| 0 <= j < at ==> #[trigger] texts[j] != output_flag(),
        decreases items.len() - at,
    {
        assert(texts[at as int] == items@[at as int]@);
        if items[at] == flag {
            proof {
                lemma_first_flag(texts, at as int);
            }
            if at + 1 < items.len() {
                assert(texts[at + 1] == items@[at + 1]@);
                return Lookup::Found(items[at + 1].clone());
            } else {
                return Lookup::Dangling;
            }
        }
        at += 1;
    }
    Lookup::Absent
}

/// The response files that the arguments name: of each argument that begins
/// with `@`, what follows the `@`.
pub open spec fn response_files_of(args: Seq<Seq<char>>) -> Seq<Seq<char>>
    decreases args.len(),
{
    if args.len() == 0 {
        Seq::empty()
    } else {
        let before = response_files_of(args.drop_last());
        let arg = args.last();
        if arg.len() > 0 && arg[0] == '@' {
            before.push(arg.skip(1))
        } else {
            before
        }
    }
}

/// Returns the paths of the response files that the arguments name, in the
/// arguments' order.
pub fn response_files(args: &Vec<String>) -> (files: Vec<String>)
    ensures
        crate::text::views(files@) == response_files_of(crate::text::views(args@)),
{
    let mut files: Vec<String> = Vec::new();
    let ghost texts = crate::text::views(args@);
    let mut at: usize = 0;
    assert(texts.take(0) =~= Seq::<Seq<char>>::empty());
    assert(crate::text::views(files@) =~= Seq::<Seq<char>>::empty());
    while at < args.len()
        invariant
            at <= args.len(),
            texts == crate::text::views(args@),
            crate::text::views(files@) == response_files_of(texts.take(at as int)),
        decreases args.len() - at,
    {
        let ghost before = crate::text::views(files@);
        proof {
            assert(texts.take(at + 1).drop_last() =~= texts.take(at as int));
            assert(texts.take(at + 1).last() == args@[at as int]@);
        }
        let chars = crate::text::to_chars(args[at].as_str());
        if chars.len() > 0 && chars[0] == '@' {
            let path = crate::text::string_of(&chars, 1, chars.len());
            files.push(path);
            assert(path@ =~= chars@.skip(1));
            assert(crate::text::views(files@) =~= before.push(path@));
        }
        at += 1;
    }
    assert(texts.take(at as int) =~= texts);
    files
}

/// The path that the first response file with an output flag gives; `files`
/// holds the files' texts in the order in which they are named.
pub open spec fn output_in_files(files: Seq<Seq<char>>) -> Option<Seq<char>>
    decreases files.len(),
{
    if files.len() == 0 {
        None
    } else {
        let items = crate::text::lines_of(files[0]);
        if has_flag(items) {
            after_flag(items)
        } else {
            output_in_files(files.skip(1))
        }
    }
}

/// The path of the linked artifact: what follows the first `-o` among the
/// arguments; without an `-o` there, the line that follows the first `-o` of
/// the first response file that has one.
pub open spec fn output_of(args: Seq<Seq<char>>, files: Seq<Seq<char>>) -> Option<Seq<char>> {
    if has_flag(args) {
        after_flag(args)
    } else {
        output_in_files(files)
    }
}

/// Why a link could not be set up.
#[derive(Clone, Copy, Debug, PartialEq, Eq, Structural)]
pub enum LinkError {
    /// Neither the arguments nor a response file name the artifact.
    OutputNotDetermined,
}

impl LinkError {
    /// The text of the error.
    pub open spec fn message_of(&self) -> Seq<char> {
        "Could not determine output"@
    }

    /// Returns the text of the error.
    pub fn message(&self) -> (text: String)
        ensures
            text@ == self.message_of(),
    {
        String::from_str("Could not determine output")
    }

    /// Returns the error as a failure of the command: the link is not set
    /// up as it has to be.
    pub fn into_failure(self) -> (failure: crate::utils::Failure)
        ensures
            failure matches crate::utils::Failure::Configuration(text) && text@
                == self.message_of(),
    {
        crate::utils::Failure::Configuration(self.message())
    }
}

/// Searches the texts of the response files, in order, for the output path.
pub fn output_from_files(files: &Vec<String>) -> (path: Option<String>)
    ensures
        match path {
            Some(path) => output_in_files(crate::text::views(files@)) == Some(path@),
            None => output_in_files(crate::text::views(files@)) is None,
        },
{
    let ghost texts = crate::text::views(files@);
    let mut at: usize = 0;
    assert(texts.skip(0) =~= texts);
    while at < files.len()
        invariant
            at <= files.len(),
            texts == crate::text::views(files@),
            output_in_files(texts) == output_in_files(texts.skip(at as int)),
        decreases files.len() - at,
    {
        proof {
            assert(texts.skip(at as int)[0] == files@[at as int]@);
            assert(texts.skip(at as int).skip(1) =~= texts.skip(at + 1));
        }
        let items = crate::text::lines(files[at].as_str());
        match lookup_output(&items) {
            Lookup::Found(path) => {
                return Some(path);
            },
            Lookup::Dangling => {
                return None;
            },
            Lookup::Absent => {},
        }
        at += 1;
    }
    None
}

/// Determines the path of the linked artifact from the arguments and, where
/// these have no output flag, from the texts of the response files that they
/// name.
pub fn output(args: &Vec<String>, files: &Vec<String>) -> (path: Result<String, LinkError>)
    ensures
        match path {
            Ok(path) => output_of(crate::text::views(args@), crate::text::views(files@)) == Some(
                path@,
            ),
            Err(error) => error == LinkError::OutputNotDetermined && output_of(
                crate::text::views(args@),
                crate::text::views(files@),
            ) is None,
        },
{
    match lookup_output(args) {
        Lookup::Found(path) => Ok(path),
        Lookup::Dangling => Err(LinkError::OutputNotDetermined),
        Lookup::Absent => match output_from_files(files) {
            Some(path) => Ok(path),
            None => Err(LinkError::OutputNotDetermined),
        },
    }
}

/// Arguments with an output flag and a path behind it decide alone: the
/// path is the one behind the first flag, whatever the files hold.
pub proof fn lemma_output_from_arguments(args: Seq<Seq<char>>, files: Seq<Seq<char>>, at: int)
    requires
        0 <= at < args.len() - 1,
        args[at] == output_flag(),
        forall|j: int| 0 <= j < at ==> #[trigger] args[j] != output_flag(),
    ensures
        output_of(args, files) == Some(args[at + 1]),
{
    lemma_first_flag(args, at);
}

/// Without an output flag among the arguments, the first response file with
/// an output flag decides: the path is the line behind its first flag.
pub proof fn lemma_output_from_response_file(
    args: Seq<Seq<char>>,
    files: Seq<Seq<char>>,
    file: int,
    at: int,
)
    requires
        !has_flag(args),
        0 <= file < files.len(),
        forall|k: int| 0 <= k < file ==> !has_flag(crate::text::lines_of(#[trigger] files[k])),
        0 <= at < crate::text::lines_of(files[file]).len() - 1,
        crate::text::lines_of(files[file])[at] == output_flag(),
        forall|j: int| 0 <= j < at ==> #[trigger] crate::text::lines_of(files[file])[j] != output_flag(),
    ensures
        output_of(args, files) == Some(crate::text::lines_of(files[file])[at + 1]),
    decreases file,
{
    if file == 0 {
        lemma_first_flag(crate::text::lines_of(files[0]), at);
    } else {
        let rest = files.skip(1);
        assert(!has_flag(crate::text::lines_of(files[0])));
        assert(rest[file - 1] == files[file]);
        assert forall|k: int| 0 <= k < file - 1 implies !has_flag(
            crate::text::lines_of(#[trigger] rest[k]),
        ) by {
            assert(rest[k] == files[k + 1]);
        }
        lemma_output_from_response_file(args, rest, file - 1, at);
    }
}

/// Where neither the arguments nor any response file has an output flag, no
/// path is determined.
pub proof fn lemma_output_not_determined(args: Seq<Seq<char>>, files: Seq<Seq<char>>)
    requires
        !has_flag(args),
        forall|k: int| 0 <= k < files.len() ==> !has_flag(crate::text::lines_of(#[trigger] files[k])),
    ensures
        output_of(args, files) is None,
    decreases files.len(),
{
    if files.len() > 0 {
        let rest = files.skip(1);
        assert(!has_flag(crate::text::lines_of(files[0])));
        assert forall|k: int| 0 <= k < rest.len() implies !has_flag(
            crate::text::lines_of(#[trigger] rest[k]),
        ) by {
            assert(rest[k] == files[k + 1]);
        }
        lemma_output_not_determined(args, rest);
    }
}

} // verus!
