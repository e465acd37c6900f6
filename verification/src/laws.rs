//! Properties of the interface that hold across events.
use vstd::prelude::*;
use crate::app::{
    AppMode, AppView, ActionView, EventView, Key, initial_state, is_first_named, select_next,
    select_previous, set_installed, step,
};
use crate::cli::{CliCommandView, command_args};
use crate::library::{
    LibraryView, opt_chars, ListInstalledLibrary, ListResult, SearchLibrary, SearchResult, installed_entries,
    installed_entry, search_entry,
};
use crate::layout::{Portion, centered_portions, column_portions, row_portions};
use crate::screen::{
    Pane, Tone, details_text, help_text, list_entry, pane_title_text, search_title_text, seg,
};
use crate::text::{decimal, digit_char};

verus! {

/// The selection is empty, or it points into the list, or it is the first
/// place of an empty list.
pub open spec fn selection_in_range(s: AppView) -> bool {
    match s.selected {
        Some(i) => i < s.libraries.len() || (i == 0 && s.libraries.len() == 0),
        None => true,
    }
}

/// A pressed key.
pub open spec fn press(code: Key) -> EventView {
    EventView::Key { code, press: true }
}

/// Whether `a` asks for a command of the command-line tool.
pub open spec fn is_command(a: ActionView) -> bool {
    match a {
        ActionView::LoadInstalled => true,
        ActionView::Search(_) => true,
        ActionView::Install(_) => true,
        ActionView::Uninstall(_) => true,
        _ => false,
    }
}

/// Whether `e` is the reply of a command of the command-line tool.
pub open spec fn is_reply(e: EventView) -> bool {
    match e {
        EventView::LibrariesLoaded(_) => true,
        EventView::LibraryInstalled(_) => true,
        EventView::LibraryUninstalled(_) => true,
        EventView::CommandError(_) => true,
        _ => false,
    }
}

/// No event moves the selection out of the list.
pub proof fn lemma_step_keeps_selection_in_range(s: AppView, e: EventView)
    requires
        selection_in_range(s),
        s.libraries.len() <= usize::MAX,
    ensures
        selection_in_range(step(s, e).0),
{
    let t = step(s, e).0;
    match e {
        EventView::LibraryInstalled(n) => lemma_set_installed_keeps_names(s.libraries, n, true),
        EventView::LibraryUninstalled(n) => lemma_set_installed_keeps_names(s.libraries, n, false),
        _ => {},
    }
}

/// Moving down and then up, or up and then down, comes back to the library
/// that was highlighted.
pub proof fn lemma_up_undoes_down(s: AppView, i: usize)
    requires
        s.mode == AppMode::Normal,
        s.selected == Some(i),
        i < s.libraries.len(),
        s.libraries.len() <= usize::MAX,
    ensures
        step(step(s, press(Key::Down)).0, press(Key::Up)).0 == s,
        step(step(s, press(Key::Up)).0, press(Key::Down)).0 == s,
        step(step(s, press(Key::Char('j'))).0, press(Key::Char('k'))).0 == s,
        step(step(s, press(Key::Char('k'))).0, press(Key::Char('j'))).0 == s,
{
    let d = step(s, press(Key::Down)).0;
    assert(d.mode == AppMode::Normal);
    assert(d.libraries == s.libraries);
    let du = step(d, press(Key::Up)).0;
    assert(du.selected == s.selected);
    let u = step(s, press(Key::Up)).0;
    let ud = step(u, press(Key::Down)).0;
    assert(ud.selected == s.selected);
}

/// The state after `k` calls of `App::next`.
pub open spec fn next_times(s: AppView, k: nat) -> AppView
    decreases k,
{
    if k == 0 {
        s
    } else {
        select_next(next_times(s, (k - 1) as nat))
    }
}

/// The index `k` places after `i` in a ring of `n` places, for `i < n` and `k <= n`.
pub open spec fn ring_after(i: int, k: int, n: int) -> int {
    if i + k < n {
        i + k
    } else {
        i + k - n
    }
}

/// How many places on from `i` the place `j` is, in a ring of `n` places,
/// counting a full round from `i` back to itself.
pub open spec fn ring_distance(i: int, j: int, n: int) -> nat {
    if j > i {
        (j - i) as nat
    } else {
        (j + n - i) as nat
    }
}

/// From any highlighted library, `k` moves down (up to a full round) land `k`
/// places further on, wrapping past the last library, and change nothing else.
pub proof fn lemma_next_moves_round(s: AppView, i: usize, k: nat)
    requires
        s.selected == Some(i),
        i < s.libraries.len(),
        s.libraries.len() <= usize::MAX,
        k <= s.libraries.len(),
    ensures
        next_times(s, k) == (AppView {
            selected: Some(ring_after(i as int, k as int, s.libraries.len() as int) as usize),
            ..s
        }),
    decreases k,
{
    if k > 0 {
        lemma_next_moves_round(s, i, (k - 1) as nat);
    }
}

/// A full round of moves down, from any highlighted library of a list of `n`,
/// selects every library exactly once and ends where it began.
pub proof fn lemma_next_full_round(s: AppView, i: usize)
    requires
        s.selected == Some(i),
        i < s.libraries.len(),
        s.libraries.len() <= usize::MAX,
    ensures
        next_times(s, s.libraries.len()) == s,
        forall|k1: nat, k2: nat|
            1 <= k1 < k2 <= s.libraries.len() ==> #[trigger] next_times(s, k1).selected
                != #[trigger] next_times(s, k2).selected,
        forall|j: usize|
            j < s.libraries.len() ==> {
                let k = #[trigger] ring_distance(i as int, j as int, s.libraries.len() as int);
                &&& 1 <= k <= s.libraries.len()
                &&& next_times(s, k).selected == Some(j)
            },
{
    let n = s.libraries.len();
    lemma_next_moves_round(s, i, n);
    assert forall|k1: nat, k2: nat|
        1 <= k1 < k2 <= n implies #[trigger] next_times(s, k1).selected
            != #[trigger] next_times(s, k2).selected by {
        lemma_next_moves_round(s, i, k1);
        lemma_next_moves_round(s, i, k2);
    }
    assert forall|j: usize| j < n implies {
        let k = #[trigger] ring_distance(i as int, j as int, n as int);
        &&& 1 <= k <= n
        &&& next_times(s, k).selected == Some(j)
    } by {
        lemma_next_moves_round(s, i, ring_distance(i as int, j as int, n as int));
    }
}

/// Pressing Down while the list has the keyboard is `App::next`.
pub proof fn lemma_down_is_next(s: AppView, k: nat)
    requires
        s.mode == AppMode::Normal,
    ensures
        steps_down(s, k) == next_times(s, k),
        next_times(s, k).mode == AppMode::Normal,
    decreases k,
{
    if k > 0 {
        lemma_down_is_next(s, (k - 1) as nat);
    }
}

/// The state after pressing Down `k` times.
pub open spec fn steps_down(s: AppView, k: nat) -> AppView
    decreases k,
{
    if k == 0 {
        s
    } else {
        step(steps_down(s, (k - 1) as nat), press(Key::Down)).0
    }
}

/// '?' opens the help popup and a second '?' closes it again, with nothing
/// else changed.
pub proof fn lemma_help_toggles(s: AppView)
    requires
        s.mode == AppMode::Normal,
    ensures
        step(s, press(Key::Char('?'))).0.mode == AppMode::Help,
        step(step(s, press(Key::Char('?'))).0, press(Key::Char('?'))).0 == s,
        step(step(s, press(Key::Char('h'))).0, press(Key::Esc)).0 == s,
{
}

/// In the search box, Backspace takes back the character just typed.
pub proof fn lemma_backspace_undoes_typing(s: AppView, c: char)
    requires
        s.mode == AppMode::Search,
    ensures
        step(s, press(Key::Char(c))).0.search_input == s.search_input.push(c),
        step(step(s, press(Key::Char(c))).0, press(Key::Backspace)).0 == s,
{
    assert(s.search_input.push(c).drop_last() =~= s.search_input);
}

/// Only 'q' pressed while the list has the keyboard quits; nothing else does.
pub proof fn lemma_quit_only_on_q(s: AppView, e: EventView)
    ensures
        step(s, e).1 == ActionView::Quit <==> (s.mode == AppMode::Normal && e == press(
            Key::Char('q'),
        )),
{
}

/// Every event that starts a command marks the interface busy, and every reply
/// of a command marks it idle.
pub proof fn lemma_busy_while_commands_run(s: AppView, e: EventView)
    ensures
        is_command(step(s, e).1) ==> step(s, e).0.is_loading,
        is_reply(e) ==> !step(s, e).0.is_loading,
        !is_command(step(s, e).1) && !is_reply(e) ==> step(s, e).0.is_loading == s.is_loading,
{
}

/// 'i' and 'u' act on the highlighted library, and only when one is highlighted.
pub proof fn lemma_install_acts_on_selection(s: AppView)
    requires
        s.mode == AppMode::Normal,
    ensures
        ({
            let a = step(s, press(Key::Char('i'))).1;
            match s.selected {
                Some(i) => if i < s.libraries.len() {
                    a == ActionView::Install(s.libraries[i as int].name)
                } else {
                    a == ActionView::Nothing
                },
                None => a == ActionView::Nothing,
            }
        }),
        ({
            let a = step(s, press(Key::Char('u'))).1;
            match s.selected {
                Some(i) => if i < s.libraries.len() {
                    a == ActionView::Uninstall(s.libraries[i as int].name)
                } else {
                    a == ActionView::Nothing
                },
                None => a == ActionView::Nothing,
            }
        }),
{
}

/// Enter in the search box asks for exactly the typed query, or for the
/// installed libraries when the box is empty.
pub proof fn lemma_enter_searches_for_input(s: AppView)
    requires
        s.mode == AppMode::Search,
    ensures
        step(s, press(Key::Enter)).0.mode == AppMode::Normal,
        step(s, press(Key::Enter)).0.search_input == s.search_input,
        s.search_input.len() == 0 ==> step(s, press(Key::Enter)).1 == ActionView::LoadInstalled,
        s.search_input.len() > 0 ==> step(s, press(Key::Enter)).1 == ActionView::Search(
            s.search_input,
        ),
{
}

/// There is at most one first library of a given name.
pub proof fn lemma_first_named_unique(libs: Seq<LibraryView>, name: Seq<char>, i: int, k: int)
    requires
        is_first_named(libs, name, i),
        is_first_named(libs, name, k),
    ensures
        i == k,
{
    if i < k {
        assert(libs[i].name != name);
    }
    if k < i {
        assert(libs[k].name != name);
    }
}

/// Marking a library installed or uninstalled keeps the list's length and every
/// name, and changes no library but the first one with the given name.
pub proof fn lemma_set_installed_keeps_names(libs: Seq<LibraryView>, name: Seq<char>, flag: bool)
    ensures
        set_installed(libs, name, flag).len() == libs.len(),
        forall|j: int|
            0 <= j < libs.len() ==> #[trigger] set_installed(libs, name, flag)[j].name
                == libs[j].name,
        forall|j: int|
            0 <= j < libs.len() && !is_first_named(libs, name, j) ==> #[trigger] set_installed(
                libs,
                name,
                flag,
            )[j] == libs[j],
        forall|j: int|
            is_first_named(libs, name, j) ==> #[trigger] set_installed(libs, name, flag)[j].is_installed
                == flag,
{
    if exists|i: int| is_first_named(libs, name, i) {
        let k = choose|i: int| is_first_named(libs, name, i);
        assert forall|j: int| is_first_named(libs, name, j) implies j == k by {
            lemma_first_named_unique(libs, name, j, k);
        }
    }
}

/// Uninstalling a library that installing had just marked takes the mark back:
/// the list is as it was, as long as the library was not marked installed before.
pub proof fn lemma_uninstall_undoes_install(s: AppView, name: Seq<char>)
    requires
        forall|i: int| is_first_named(s.libraries, name, i) ==> !s.libraries[i].is_installed,
    ensures
        step(
            step(s, EventView::LibraryInstalled(name)).0,
            EventView::LibraryUninstalled(name),
        ).0.libraries == s.libraries,
{
    let libs = s.libraries;
    let mid = set_installed(libs, name, true);
    lemma_set_installed_keeps_names(libs, name, true);
    lemma_set_installed_keeps_names(mid, name, false);
    if exists|i: int| is_first_named(libs, name, i) {
        let k = choose|i: int| is_first_named(libs, name, i);
        assert(is_first_named(mid, name, k));
        assert forall|j: int| is_first_named(mid, name, j) implies j == k by {
            lemma_first_named_unique(mid, name, j, k);
        }
        assert(set_installed(mid, name, false) =~= libs);
    } else {
        assert(mid == libs);
    }
}

/// Once the tool reports a library installed, its entry in the list carries
/// the installed marker; once it reports it uninstalled, the entry carries the
/// other marker.
pub proof fn lemma_reply_sets_marker(s: AppView, name: Seq<char>, i: int)
    requires
        is_first_named(s.libraries, name, i),
    ensures
        list_entry(step(s, EventView::LibraryInstalled(name)).0.libraries[i])[0] == seg(
            "[I] "@,
            Tone::Installed,
        ),
        list_entry(step(s, EventView::LibraryUninstalled(name)).0.libraries[i])[0] == seg(
            "[ ] "@,
            Tone::NotInstalled,
        ),
{
    lemma_set_installed_keeps_names(s.libraries, name, true);
    lemma_set_installed_keeps_names(s.libraries, name, false);
}

/// A search reply lists its libraries in order, each with its own name and the
/// version, author, description and category of its newest release, and marks
/// none of them installed.
pub proof fn lemma_search_results_not_installed(result: SearchResult)
    ensures
        ({
            let libs = result.libraries@.map_values(|l: SearchLibrary| search_entry(l));
            &&& libs.len() == result.libraries@.len()
            &&& forall|i: int|
                0 <= i < libs.len() ==> {
                    let entry = result.libraries@[i];
                    &&& !(#[trigger] libs[i]).is_installed
                    &&& libs[i].name == entry.name@
                    &&& libs[i].version == entry.latest.version@
                    &&& libs[i].author == opt_chars(entry.latest.author)
                    &&& libs[i].sentence == opt_chars(entry.latest.sentence)
                    &&& libs[i].category == opt_chars(entry.latest.category)
                }
        }),
{
}

/// An installed listing lists its libraries in order, each with its own name,
/// version, author, description and category, and marks every one of them
/// installed.
pub proof fn lemma_listed_libraries_installed(result: ListResult)
    ensures
        ({
            let entries = installed_entries(result);
            let libs = entries.map_values(|l: ListInstalledLibrary| installed_entry(l));
            &&& libs.len() == entries.len()
            &&& forall|i: int|
                0 <= i < libs.len() ==> {
                    let data = entries[i].library;
                    &&& (#[trigger] libs[i]).is_installed
                    &&& libs[i].name == data.name@
                    &&& libs[i].version == data.version@
                    &&& libs[i].author == opt_chars(data.author)
                    &&& libs[i].sentence == opt_chars(data.sentence)
                    &&& libs[i].category == opt_chars(data.category)
                }
        }),
{
}

/// The keys that do something while the list has the keyboard.
pub open spec fn is_list_binding(code: Key) -> bool {
    match code {
        Key::Char(c) => c == 'q' || c == 'j' || c == 'k' || c == '?' || c == 'h' || c == '/'
            || c == 'i' || c == 'u',
        Key::Up => true,
        Key::Down => true,
        Key::Esc => true,
        _ => false,
    }
}

/// While the list has the keyboard, only 'i' asks for an install and only 'u'
/// for an uninstall, only Esc asks for the installed libraries, no key starts a
/// search, and a key that is not bound leaves the state alone and asks for
/// nothing.
pub proof fn lemma_list_keys(s: AppView, code: Key)
    requires
        s.mode == AppMode::Normal,
    ensures
        step(s, press(code)).1 is Install ==> code == Key::Char('i'),
        step(s, press(code)).1 is Uninstall ==> code == Key::Char('u'),
        step(s, press(code)).1 is LoadInstalled ==> code == Key::Esc,
        !(step(s, press(code)).1 is Search),
        !is_list_binding(code) ==> step(s, press(code)) == (s, ActionView::Nothing),
        step(s, press(code)).0.libraries == s.libraries,
        step(s, press(code)).0.mode != AppMode::Normal ==> (code == Key::Char('?') || code
            == Key::Char('h') || code == Key::Char('/')),
{
}

/// While the help popup is open, Esc, 'q', '?' and 'h' close it and change
/// nothing else; every other key does nothing at all. No key asks for work.
pub proof fn lemma_help_keys(s: AppView, code: Key)
    requires
        s.mode == AppMode::Help,
    ensures
        step(s, press(code)).1 == ActionView::Nothing,
        (code == Key::Esc || code == Key::Char('q') || code == Key::Char('?') || code == Key::Char(
            'h',
        )) ==> step(s, press(code)).0 == (AppView { mode: AppMode::Normal, ..s }),
        !(code == Key::Esc || code == Key::Char('q') || code == Key::Char('?') || code
            == Key::Char('h')) ==> step(s, press(code)).0 == s,
{
}

/// While the search box has the keyboard, a character is appended to the query,
/// Backspace removes its last character, Enter and Esc hand the keyboard back to
/// the list, and no key installs, uninstalls or quits; other keys do nothing.
pub proof fn lemma_search_keys(s: AppView, code: Key)
    requires
        s.mode == AppMode::Search,
    ensures
        (code matches Key::Char(c)) ==> step(s, press(code)) == (AppView {
            search_input: s.search_input.push(code->Char_0),
            ..s
        }, ActionView::Nothing),
        code == Key::Backspace ==> step(s, press(code)).0.search_input == (if s.search_input.len()
            > 0 {
            s.search_input.drop_last()
        } else {
            s.search_input
        }),
        (code == Key::Enter || code == Key::Esc) ==> step(s, press(code)).0.mode == AppMode::Normal,
        !(step(s, press(code)).1 is Install),
        !(step(s, press(code)).1 is Uninstall),
        !(step(s, press(code)).1 is Quit),
        step(s, press(code)).0.libraries == s.libraries,
        step(s, press(code)).0.selected == s.selected,
        !(code is Char || code == Key::Backspace || code == Key::Enter || code == Key::Esc)
            ==> step(s, press(code)) == (s, ActionView::Nothing),
{
}

/// Every entry of the list is two pieces: the marker that says whether the
/// library is installed, then the library's own name.
pub proof fn lemma_list_entry_names_library(lib: LibraryView)
    ensures
        list_entry(lib).len() == 2,
        list_entry(lib)[1] == seg(lib.name, Tone::Plain),
        list_entry(lib)[0] == (if lib.is_installed {
            seg("[I] "@, Tone::Installed)
        } else {
            seg("[ ] "@, Tone::NotInstalled)
        }),
{
}

/// The details pane describes the highlighted library: it opens with its name
/// and version, gives its author when known, and ends with whether it is
/// installed. With no library highlighted it says so in one line.
pub proof fn lemma_details_describe_selection(s: AppView)
    ensures
        ({
            let lines = details_text(s);
            match s.selected {
                Some(i) => if i < s.libraries.len() {
                    let lib = s.libraries[i as int];
                    &&& lines.len() >= 4
                    &&& lines[0] == seq![seg("Name: "@, Tone::Bold), seg(lib.name, Tone::Plain)]
                    &&& lines[1] == seq![seg("Version: "@, Tone::Bold), seg(lib.version, Tone::Plain)]
                    &&& (lib.author matches Some(a) ==> lines[2] == seq![
                        seg("Author: "@, Tone::Bold),
                        seg(a, Tone::Plain),
                    ])
                    &&& lines[lines.len() - 1] == (if lib.is_installed {
                        seq![seg("Status: Installed"@, Tone::Installed)]
                    } else {
                        seq![seg("Status: Not Installed"@, Tone::NotInstalled)]
                    })
                    &&& (lib.sentence matches Some(t) ==> lines[lines.len() - 3] == seq![
                        seg(t, Tone::Plain),
                    ])
                } else {
                    lines == seq![seq![seg("No library selected"@, Tone::Plain)]]
                },
                None => lines == seq![seq![seg("No library selected"@, Tone::Plain)]],
            }
        }),
{
}

/// The arguments of each command: searching passes the query (left out when
/// empty) between `lib search` and `--format json`; listing asks for JSON;
/// installing and uninstalling pass the library's name.
pub proof fn lemma_command_args(q: Seq<char>)
    ensures
        q.len() > 0 ==> command_args(CliCommandView::Search(q)) == seq![
            "lib"@,
            "search"@,
            q,
            "--format"@,
            "json"@,
        ],
        q.len() == 0 ==> command_args(CliCommandView::Search(q)) == seq![
            "lib"@,
            "search"@,
            "--format"@,
            "json"@,
        ],
        command_args(CliCommandView::ListInstalled) == seq!["lib"@, "list"@, "--format"@, "json"@],
        command_args(CliCommandView::Install(q)) == seq!["lib"@, "install"@, q],
        command_args(CliCommandView::Uninstall(q)) == seq!["lib"@, "uninstall"@, q],
{
    if q.len() == 0 {
        assert(command_args(CliCommandView::Search(q)) =~= seq![
            "lib"@,
            "search"@,
            "--format"@,
            "json"@,
        ]);
    } else {
        assert(command_args(CliCommandView::Search(q)) =~= seq![
            "lib"@,
            "search"@,
            q,
            "--format"@,
            "json"@,
        ]);
    }
}

/// The number that a string of decimal digits stands for.
pub open spec fn digits_value(d: Seq<char>) -> int
    decreases d.len(),
{
    if d.len() == 0 {
        0
    } else {
        digits_value(d.drop_last()) * 10 + (d.last() as int - '0' as int)
    }
}

/// The decimal notation of `n` is made of digits only, stands for `n`, and has
/// no leading zero.
pub proof fn lemma_decimal_stands_for(n: nat)
    ensures
        decimal(n).len() > 0,
        forall|i: int| 0 <= i < decimal(n).len() ==> '0' <= #[trigger] decimal(n)[i] <= '9',
        digits_value(decimal(n)) == n,
        decimal(n)[0] == '0' ==> n == 0,
    decreases n,
{
    if n >= 10 {
        lemma_decimal_stands_for(n / 10);
        assert(decimal(n).drop_last() =~= decimal(n / 10));
        lemma_digit_value((n % 10) as nat);
        let d = decimal(n);
        assert(d.last() == digit_char((n % 10) as nat));
        assert(digits_value(d) == digits_value(d.drop_last()) * 10 + (d.last() as int - '0' as int));
        assert(digits_value(d) == digits_value(decimal(n / 10)) * 10 + n % 10);
        assert(n == (n / 10) * 10 + n % 10);
    } else {
        lemma_digit_value(n);
        let d = decimal(n);
        assert(d.drop_last() =~= Seq::<char>::empty());
        assert(digits_value(d) == digits_value(d.drop_last()) * 10 + (d.last() as int - '0' as int));
        assert(digits_value(Seq::<char>::empty()) == 0);
    }
}

proof fn lemma_digit_value(d: nat)
    requires
        d < 10,
    ensures
        digit_char(d) as int - '0' as int == d,
        '0' <= digit_char(d) <= '9',
{
    assert('0' as int == 48 && '1' as int == 49 && '2' as int == 50 && '3' as int == 51 && '4' as int
        == 52 && '5' as int == 53 && '6' as int == 54 && '7' as int == 55 && '8' as int == 56
        && '9' as int == 57);
}

/// The interface starts on the list, with an empty search box, no libraries,
/// nothing highlighted, the first listing under way, and the key summary in
/// the status line.
pub proof fn lemma_initial_state()
    ensures
        initial_state().mode == AppMode::Normal,
        initial_state().search_input.len() == 0,
        initial_state().libraries.len() == 0,
        initial_state().selected is None,
        initial_state().is_loading,
        initial_state().status_message
            == "Press '?' for help, '/' to search, 'i' to install, 'u' to uninstall, 'q' to quit"@,
{
}

/// With nothing highlighted, a move either way highlights the first library.
/// From a highlighted library, a move up goes one place back, from the first to
/// the last, and changes nothing else.
pub proof fn lemma_previous_moves_back(s: AppView)
    requires
        s.libraries.len() <= usize::MAX,
    ensures
        s.selected is None ==> select_next(s) == (AppView { selected: Some(0usize), ..s }),
        s.selected is None ==> select_previous(s) == (AppView { selected: Some(0usize), ..s }),
        (s.selected matches Some(i) && i < s.libraries.len()) ==> select_previous(s) == (AppView {
            selected: Some(
                (if s.selected->Some_0 == 0 {
                    s.libraries.len() - 1
                } else {
                    s.selected->Some_0 - 1
                }) as usize,
            ),
            ..s
        }),
{
}

/// While the list has the keyboard: 'j' and Down are `App::next`, 'k' and Up
/// are `App::previous`, '?' and 'h' open the help popup, '/' opens the search
/// box, and none of these changes anything else or asks for work.
pub proof fn lemma_list_key_effects(s: AppView)
    requires
        s.mode == AppMode::Normal,
    ensures
        step(s, press(Key::Char('j'))) == (select_next(s), ActionView::Nothing),
        step(s, press(Key::Down)) == (select_next(s), ActionView::Nothing),
        step(s, press(Key::Char('k'))) == (select_previous(s), ActionView::Nothing),
        step(s, press(Key::Up)) == (select_previous(s), ActionView::Nothing),
        step(s, press(Key::Char('?'))) == (AppView { mode: AppMode::Help, ..s }, ActionView::Nothing),
        step(s, press(Key::Char('h'))) == (AppView { mode: AppMode::Help, ..s }, ActionView::Nothing),
        step(s, press(Key::Char('/'))) == (AppView { mode: AppMode::Search, ..s }, ActionView::Nothing),
        step(s, press(Key::Char('q'))) == (s, ActionView::Quit),
{
}

/// Asking to install or uninstall the highlighted library says so in the status
/// line, marks the interface busy, and changes nothing else.
pub proof fn lemma_request_messages(s: AppView, i: usize)
    requires
        s.mode == AppMode::Normal,
        s.selected == Some(i),
        i < s.libraries.len(),
    ensures
        step(s, press(Key::Char('i'))).0 == (AppView {
            status_message: "Installing "@ + s.libraries[i as int].name + "..."@,
            is_loading: true,
            ..s
        }),
        step(s, press(Key::Char('u'))).0 == (AppView {
            status_message: "Uninstalling "@ + s.libraries[i as int].name + "..."@,
            is_loading: true,
            ..s
        }),
{
}

/// Esc, on the list or in the search box, gives the keyboard to the list; when
/// the search box holds a query it also empties it and asks for the installed
/// libraries, saying so in the status line.
pub proof fn lemma_escape_reloads(s: AppView)
    requires
        s.mode == AppMode::Normal || s.mode == AppMode::Search,
    ensures
        s.search_input.len() > 0 ==> step(s, press(Key::Esc)) == (AppView {
            mode: AppMode::Normal,
            search_input: Seq::empty(),
            status_message: "Loading installed libraries..."@,
            is_loading: true,
            ..s
        }, ActionView::LoadInstalled),
        s.search_input.len() == 0 ==> step(s, press(Key::Esc)) == (AppView {
            mode: AppMode::Normal,
            ..s
        }, ActionView::Nothing),
{
}

/// Enter in the search box says in the status line what it asks for, marks
/// the interface busy and keeps the query, the list and the selection.
pub proof fn lemma_enter_messages(s: AppView)
    requires
        s.mode == AppMode::Search,
    ensures
        s.search_input.len() > 0 ==> step(s, press(Key::Enter)).0 == (AppView {
            mode: AppMode::Normal,
            status_message: "Searching for '"@ + s.search_input + "'..."@,
            is_loading: true,
            ..s
        }),
        s.search_input.len() == 0 ==> step(s, press(Key::Enter)).0 == (AppView {
            mode: AppMode::Normal,
            status_message: "Loading installed libraries..."@,
            is_loading: true,
            ..s
        }),
{
}

/// The replies of commands: a listing replaces the libraries, highlights the
/// first one if there is one, and reports how many it found in decimal; an
/// install or uninstall reply reports the library; an error reports its
/// message. None of them changes the mode or the search box.
pub proof fn lemma_reply_events(s: AppView, libs: Seq<LibraryView>, name: Seq<char>, m: Seq<char>)
    ensures
        ({
            let t = step(s, EventView::LibrariesLoaded(libs)).0;
            &&& t.libraries == libs
            &&& t.selected == (if libs.len() == 0 {
                None
            } else {
                Some(0usize)
            })
            &&& t.status_message == "Found "@ + decimal(libs.len()) + " libraries."@
            &&& !t.is_loading
            &&& t.mode == s.mode
            &&& t.search_input == s.search_input
        }),
        ({
            let t = step(s, EventView::LibraryInstalled(name)).0;
            &&& t.status_message == "Successfully installed "@ + name + "."@
            &&& t.selected == s.selected
            &&& t.mode == s.mode
            &&& t.search_input == s.search_input
        }),
        ({
            let t = step(s, EventView::LibraryUninstalled(name)).0;
            &&& t.status_message == "Successfully uninstalled "@ + name + "."@
            &&& t.selected == s.selected
            &&& t.mode == s.mode
            &&& t.search_input == s.search_input
        }),
        step(s, EventView::CommandError(m)) == (AppView {
            status_message: "Error: "@ + m,
            is_loading: false,
            ..s
        }, ActionView::Nothing),
        step(s, EventView::Tick) == (s, ActionView::Nothing),
        step(s, EventView::OtherInput) == (s, ActionView::Nothing),
{
}

/// The details pane of a highlighted library, line by line: name, version,
/// author and category when known, the description under a heading after a
/// blank line when there is one, and after a blank line whether it is installed.
pub proof fn lemma_details_in_order(s: AppView, i: usize)
    requires
        s.selected == Some(i),
        i < s.libraries.len(),
    ensures
        ({
            let lib = s.libraries[i as int];
            details_text(s) == seq![
                seq![seg("Name: "@, Tone::Bold), seg(lib.name, Tone::Plain)],
                seq![seg("Version: "@, Tone::Bold), seg(lib.version, Tone::Plain)],
            ] + (match lib.author {
                Some(a) => seq![seq![seg("Author: "@, Tone::Bold), seg(a, Tone::Plain)]],
                None => Seq::empty(),
            }) + (match lib.category {
                Some(c) => seq![seq![seg("Category: "@, Tone::Bold), seg(c, Tone::Plain)]],
                None => Seq::empty(),
            }) + (match lib.sentence {
                Some(t) => seq![
                    seq![seg(""@, Tone::Plain)],
                    seq![seg("Description:"@, Tone::Bold)],
                    seq![seg(t, Tone::Plain)],
                ],
                None => Seq::empty(),
            }) + seq![
                seq![seg(""@, Tone::Plain)],
                if lib.is_installed {
                    seq![seg("Status: Installed"@, Tone::Installed)]
                } else {
                    seq![seg("Status: Not Installed"@, Tone::NotInstalled)]
                },
            ]
        }),
{
}

/// The popup's portions: the asked percentage in the middle, between two equal
/// margins that take up the rest, to within the one per cent that halving an
/// odd remainder loses.
pub proof fn lemma_centered_portions(percent: u16)
    requires
        percent <= 100,
    ensures
        centered_portions(percent).len() == 3,
        centered_portions(percent)[1] == Portion::Percentage(percent),
        centered_portions(percent)[0] == centered_portions(percent)[2],
        centered_portions(percent)[0] matches Portion::Percentage(m) && m * 2 + percent <= 100
            && 100 - percent - m * 2 <= 1,
{
}

/// The screen is a search box and a status line three cells high with the
/// panes between them, and the panes give the list 40 per cent of the width
/// and the details the other 60.
pub proof fn lemma_screen_portions()
    ensures
        row_portions() == seq![Portion::Length(3), Portion::Min(0), Portion::Length(3)],
        column_portions() == seq![Portion::Percentage(40), Portion::Percentage(60)],
{
}

/// The titles of the search box in each mode, and of each pane.
pub proof fn lemma_titles()
    ensures
        search_title_text(AppMode::Search) == " Search (Press Enter to search, Esc to cancel) "@,
        search_title_text(AppMode::Normal) == " Search (Press '/' to search) "@,
        search_title_text(AppMode::Help) == "(Press 'esc' to go back) "@,
        pane_title_text(Pane::List) == " Libraries "@,
        pane_title_text(Pane::Details) == " Details "@,
        pane_title_text(Pane::Status) == " Status "@,
        pane_title_text(Pane::Help) == " Help (Press Esc to close) "@,
{
}

/// The help text has three bold headings, Navigation, Actions and General,
/// each followed by the keys of its group.
pub proof fn lemma_help_text()
    ensures
        help_text().len() == 12,
        help_text()[0] == seq![seg("Navigation"@, Tone::Bold)],
        help_text()[1] == seq![seg("  j / Down   : Move down"@, Tone::Plain)],
        help_text()[2] == seq![seg("  k / Up     : Move up"@, Tone::Plain)],
        help_text()[3] == seq![seg(""@, Tone::Plain)],
        help_text()[4] == seq![seg("Actions"@, Tone::Bold)],
        help_text()[5] == seq![seg("  /          : Search for a library"@, Tone::Plain)],
        help_text()[6] == seq![seg("  i          : Install selected library"@, Tone::Plain)],
        help_text()[7] == seq![seg("  u          : Uninstall selected library"@, Tone::Plain)],
        help_text()[8] == seq![seg(""@, Tone::Plain)],
        help_text()[9] == seq![seg("General"@, Tone::Bold)],
        help_text()[10] == seq![seg("  ? / h      : Toggle this help menu"@, Tone::Plain)],
        help_text()[11] == seq![seg("  q          : Quit application"@, Tone::Plain)],
{
}

} // verus!
