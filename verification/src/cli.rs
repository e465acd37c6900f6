//! How the interface talks to `arduino-cli`: which arguments each command
//! takes, and what a finished command amounts to.
use vstd::prelude::*;
use vstd::utf8::{decode_utf8, valid_utf8};
use crate::library::{
    LibraryInfo, ListInstalledLibrary, ListResult, SearchLibrary, SearchResult, installed_entries,
    installed_entry, libraries_from_list, libraries_from_search, libraries_view, search_entry,
};

verus! {

/// The program that does the work.
pub const CLI_PROGRAM: &'static str = "arduino-cli";

/// A command of the command-line tool.
pub enum CliCommand {
    /// Search the registry; an empty query lists the whole registry.
    Search(String),
    ListInstalled,
    Install(String),
    Uninstall(String),
}

/// The mathematical value of a [`CliCommand`].
pub enum CliCommandView {
    Search(Seq<char>),
    ListInstalled,
    Install(Seq<char>),
    Uninstall(Seq<char>),
}

impl View for CliCommand {
    type V = CliCommandView;

    open spec fn view(&self) -> CliCommandView {
        match self {
            CliCommand::Search(q) => CliCommandView::Search(q@),
            CliCommand::ListInstalled => CliCommandView::ListInstalled,
            CliCommand::Install(n) => CliCommandView::Install(n@),
            CliCommand::Uninstall(n) => CliCommandView::Uninstall(n@),
        }
    }
}

/// The characters of each string, in order.
pub open spec fn strings_view(v: Seq<String>) -> Seq<Seq<char>> {
    v.map_values(|s: String| s@)
}

/// The arguments that follow the program's name for `c`. Searching and
/// listing ask for JSON; an empty query is left out.
pub open spec fn command_args(c: CliCommandView) -> Seq<Seq<char>> {
    match c {
        CliCommandView::Search(q) => seq!["lib"@, "search"@] + (if q.len() == 0 {
            Seq::<Seq<char>>::empty()
        } else {
            seq![q]
        }) + seq!["--format"@, "json"@],
        CliCommandView::ListInstalled => seq!["lib"@, "list"@, "--format"@, "json"@],
        CliCommandView::Install(n) => seq!["lib"@, "install"@, n],
        CliCommandView::Uninstall(n) => seq!["lib"@, "uninstall"@, n],
    }
}

fn push_str(v: &mut Vec<String>, s: &str)
    ensures
        strings_view(final(v)@) == strings_view(old(v)@).push(s@),
{
    v.push(String::from_str(s));
    assert(strings_view(v@) =~= strings_view(old(v)@).push(s@));
}

/// The arguments for `command`, in order.
pub fn cli_args(command: &CliCommand) -> (args: Vec<String>)
    ensures
        strings_view(args@) == command_args(command@),
{
    let mut args: Vec<String> = Vec::new();
    assert(strings_view(args@) =~= Seq::<Seq<char>>::empty());
    push_str(&mut args, "lib");
    match command {
        CliCommand::Search(q) => {
            push_str(&mut args, "search");
            if !q.as_str().is_empty() {
                push_str(&mut args, q.as_str());
            }
            push_str(&mut args, "--format");
            push_str(&mut args, "json");
        },
        CliCommand::ListInstalled => {
            push_str(&mut args, "list");
            push_str(&mut args, "--format");
            push_str(&mut args, "json");
        },
        CliCommand::Install(n) => {
            push_str(&mut args, "install");
            push_str(&mut args, n.as_str());
        },
        CliCommand::Uninstall(n) => {
            push_str(&mut args, "uninstall");
            push_str(&mut args, n.as_str());
        },
    }
    assert(strings_view(args@) =~= command_args(command@));
    args
}

/// The text `String::from_utf8_lossy` makes of `bytes`.
pub uninterp spec fn utf8_lossy(bytes: Seq<u8>) -> Seq<char>;

/// Decodes `bytes` as UTF-8, with U+FFFD in place of each invalid sequence.
///
/// Calls `String::from_utf8_lossy`. The contract names its result and says
/// what std's documentation says of valid input: it is decoded as it is. What
/// the replacement of invalid sequences gives is left unsaid.
#[verifier::external_body]
fn lossy_text(bytes: &[u8]) -> (s: String)
    ensures
        s@ == utf8_lossy(bytes@),
        valid_utf8(bytes@) ==> s@ == decode_utf8(bytes@),
{
    String::from_utf8_lossy(bytes).to_string()
}

/// A finished command succeeded, or failed with what it wrote to its error stream.
pub fn command_status(success: bool, stderr: &[u8]) -> (r: Result<(), String>)
    ensures
        success ==> r is Ok,
        !success ==> r is Err && r->Err_0@ == utf8_lossy(stderr@),
        !success && valid_utf8(stderr@) ==> r->Err_0@ == decode_utf8(stderr@),
{
    if success {
        Ok(())
    } else {
        Err(lossy_text(stderr))
    }
}

/// The libraries a search found, or the error that its reply could not be read with.
pub fn search_reply(parsed: Result<SearchResult, String>) -> (r: Result<Vec<LibraryInfo>, String>)
    ensures
        match parsed {
            Ok(result) => r is Ok && libraries_view(r->Ok_0@) == result.libraries@.map_values(
                |l: SearchLibrary| search_entry(l),
            ),
            Err(e) => r is Err && r->Err_0 == e,
        },
{
    match parsed {
        Ok(result) => Ok(libraries_from_search(result)),
        Err(e) => Err(e),
    }
}

/// The installed libraries a listing reports, or the error that its reply
/// could not be read with.
pub fn list_reply(parsed: Result<ListResult, String>) -> (r: Result<Vec<LibraryInfo>, String>)
    ensures
        match parsed {
            Ok(result) => r is Ok && libraries_view(r->Ok_0@) == installed_entries(
                result,
            ).map_values(|l: ListInstalledLibrary| installed_entry(l)),
            Err(e) => r is Err && r->Err_0 == e,
        },
{
    match parsed {
        Ok(result) => Ok(libraries_from_list(result)),
        Err(e) => Err(e),
    }
}

} // verus!
