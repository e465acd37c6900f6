//! What the screen shows of the interface's state: titles, list entries, the
//! details pane, the help text and the styles that go with them. Drawing
//! these on the terminal is left to the caller.
use vstd::prelude::*;
use crate::app::{App, AppMode, AppView};
use crate::library::{LibraryInfo, LibraryView};

verus! {

/// How a piece of text is styled.
#[derive(Clone, Copy, PartialEq, Eq, Structural, Debug)]
pub enum Tone {
    /// The terminal's own style.
    Plain,
    /// Bold, for labels and headings.
    Bold,
    /// Green, for an installed library.
    Installed,
    /// Dark gray, for a library that is not installed.
    NotInstalled,
    /// Yellow, for the search box while it has the keyboard.
    Editing,
    /// Cyan and rapidly blinking, for the status line while a command runs.
    Busy,
    /// Gray, for the status line while nothing runs.
    Idle,
    /// Bold on a dark gray background, for the highlighted entry of the list.
    Highlighted,
}

/// A framed pane of the screen other than the search box.
#[derive(Clone, Copy, PartialEq, Eq, Structural, Debug)]
pub enum Pane {
    List,
    Details,
    Status,
    Help,
}

/// The title on the frame of a pane.
pub open spec fn pane_title_text(pane: Pane) -> Seq<char> {
    match pane {
        Pane::List => " Libraries "@,
        Pane::Details => " Details "@,
        Pane::Status => " Status "@,
        Pane::Help => " Help (Press Esc to close) "@,
    }
}

/// The title on the frame of `pane`.
pub fn pane_title(pane: Pane) -> (title: &'static str)
    ensures
        title@ == pane_title_text(pane),
{
    match pane {
        Pane::List => " Libraries ",
        Pane::Details => " Details ",
        Pane::Status => " Status ",
        Pane::Help => " Help (Press Esc to close) ",
    }
}

/// The marker in front of the highlighted entry of the list; the entry itself
/// is drawn in [`Tone::Highlighted`].
pub fn highlight_symbol() -> (symbol: &'static str)
    ensures
        symbol@ == ">> "@,
{
    ">> "
}

/// A piece of text in one style.
pub struct Segment {
    pub text: String,
    pub tone: Tone,
}

/// The mathematical value of a [`Segment`].
pub struct SegmentView {
    pub text: Seq<char>,
    pub tone: Tone,
}

impl View for Segment {
    type V = SegmentView;

    open spec fn view(&self) -> SegmentView {
        SegmentView { text: self.text@, tone: self.tone }
    }
}

/// The views of the segments of a line.
pub open spec fn segments_view(v: Seq<Segment>) -> Seq<SegmentView> {
    v.map_values(|s: Segment| s@)
}

/// The views of the lines of a text.
pub open spec fn lines_view(v: Seq<Vec<Segment>>) -> Seq<Seq<SegmentView>> {
    v.map_values(|l: Vec<Segment>| segments_view(l@))
}

/// A segment of `text` in `tone`.
pub open spec fn seg(text: Seq<char>, tone: Tone) -> SegmentView {
    SegmentView { text, tone }
}

/// A line of one plain segment.
pub open spec fn plain_line(text: Seq<char>) -> Seq<SegmentView> {
    seq![seg(text, Tone::Plain)]
}

/// A line that gives a bold label and then a plain value.
pub open spec fn labelled_line(label: Seq<char>, value: Seq<char>) -> Seq<SegmentView> {
    seq![seg(label, Tone::Bold), seg(value, Tone::Plain)]
}

/// The title of the search box.
pub open spec fn search_title_text(mode: AppMode) -> Seq<char> {
    match mode {
        AppMode::Search => " Search (Press Enter to search, Esc to cancel) "@,
        AppMode::Normal => " Search (Press '/' to search) "@,
        AppMode::Help => "(Press 'esc' to go back) "@,
    }
}

/// The title of the search box in `mode`.
pub fn search_title(mode: AppMode) -> (title: &'static str)
    ensures
        title@ == search_title_text(mode),
{
    match mode {
        AppMode::Search => " Search (Press Enter to search, Esc to cancel) ",
        AppMode::Normal => " Search (Press '/' to search) ",
        AppMode::Help => "(Press 'esc' to go back) ",
    }
}

/// The style of the search box in `mode`: highlighted while it has the keyboard.
pub fn search_tone(mode: AppMode) -> (tone: Tone)
    ensures
        tone == (if mode == AppMode::Search {
            Tone::Editing
        } else {
            Tone::Plain
        }),
{
    match mode {
        AppMode::Search => Tone::Editing,
        AppMode::Normal | AppMode::Help => Tone::Plain,
    }
}

/// The style of the status line: busy while a command runs.
pub fn status_tone(is_loading: bool) -> (tone: Tone)
    ensures
        tone == (if is_loading {
            Tone::Busy
        } else {
            Tone::Idle
        }),
{
    if is_loading {
        Tone::Busy
    } else {
        Tone::Idle
    }
}

/// Whether the help popup is shown.
pub fn shows_help(mode: AppMode) -> (shown: bool)
    ensures
        shown == (mode == AppMode::Help),
{
    match mode {
        AppMode::Help => true,
        _ => false,
    }
}

fn segment(text: &str, tone: Tone) -> (s: Segment)
    ensures
        s@ == seg(text@, tone),
{
    Segment { text: String::from_str(text), tone }
}

fn line1(text: &str, tone: Tone) -> (line: Vec<Segment>)
    ensures
        segments_view(line@) == seq![seg(text@, tone)],
{
    let mut line: Vec<Segment> = Vec::new();
    line.push(segment(text, tone));
    assert(segments_view(line@) =~= seq![seg(text@, tone)]);
    line
}

fn line2(label: &str, value: &str) -> (line: Vec<Segment>)
    ensures
        segments_view(line@) == labelled_line(label@, value@),
{
    let mut line: Vec<Segment> = Vec::new();
    line.push(segment(label, Tone::Bold));
    line.push(segment(value, Tone::Plain));
    assert(segments_view(line@) =~= labelled_line(label@, value@));
    line
}

fn push_line(lines: &mut Vec<Vec<Segment>>, line: Vec<Segment>)
    ensures
        lines_view(final(lines)@) == lines_view(old(lines)@).push(segments_view(line@)),
{
    let ghost v = segments_view(line@);
    lines.push(line);
    assert(lines_view(lines@) =~= lines_view(old(lines)@).push(v));
}

/// The entry of the list for `lib`: a marker that says whether it is
/// installed, then its name.
pub open spec fn list_entry(lib: LibraryView) -> Seq<SegmentView> {
    if lib.is_installed {
        seq![seg("[I] "@, Tone::Installed), seg(lib.name, Tone::Plain)]
    } else {
        seq![seg("[ ] "@, Tone::NotInstalled), seg(lib.name, Tone::Plain)]
    }
}

/// The entry of the list for `lib`.
pub fn list_item(lib: &LibraryInfo) -> (line: Vec<Segment>)
    ensures
        segments_view(line@) == list_entry(lib@),
{
    let mut line: Vec<Segment> = Vec::new();
    if lib.is_installed {
        line.push(segment("[I] ", Tone::Installed));
    } else {
        line.push(segment("[ ] ", Tone::NotInstalled));
    }
    line.push(Segment { text: lib.name.clone(), tone: Tone::Plain });
    assert(segments_view(line@) =~= list_entry(lib@));
    line
}

/// One labelled line for an optional field, or none when the field is absent.
pub open spec fn optional_line(label: Seq<char>, value: Option<Seq<char>>) -> Seq<
    Seq<SegmentView>,
> {
    match value {
        Some(v) => seq![labelled_line(label, v)],
        None => Seq::empty(),
    }
}

/// The description of a library under a heading, after a blank line; nothing
/// when it has none.
pub open spec fn description_lines(sentence: Option<Seq<char>>) -> Seq<Seq<SegmentView>> {
    match sentence {
        Some(t) => seq![plain_line(""@), seq![seg("Description:"@, Tone::Bold)], plain_line(t)],
        None => Seq::empty(),
    }
}

/// A blank line and then whether the library is installed.
pub open spec fn installed_lines(is_installed: bool) -> Seq<Seq<SegmentView>> {
    seq![
        plain_line(""@),
        if is_installed {
            seq![seg("Status: Installed"@, Tone::Installed)]
        } else {
            seq![seg("Status: Not Installed"@, Tone::NotInstalled)]
        },
    ]
}

/// The details pane for `lib`: name, version, author and category when known,
/// description when there is one, and whether it is installed.
pub open spec fn library_details(lib: LibraryView) -> Seq<Seq<SegmentView>> {
    seq![labelled_line("Name: "@, lib.name), labelled_line("Version: "@, lib.version)]
        + optional_line("Author: "@, lib.author) + optional_line("Category: "@, lib.category)
        + description_lines(lib.sentence) + installed_lines(lib.is_installed)
}

/// The details pane: the highlighted library, or a note that none is.
pub open spec fn details_text(s: AppView) -> Seq<Seq<SegmentView>> {
    match s.selected {
        Some(i) => if i < s.libraries.len() {
            library_details(s.libraries[i as int])
        } else {
            seq![plain_line("No library selected"@)]
        },
        None => seq![plain_line("No library selected"@)],
    }
}

fn push_optional(lines: &mut Vec<Vec<Segment>>, label: &str, value: &Option<String>)
    ensures
        lines_view(final(lines)@) == lines_view(old(lines)@) + optional_line(
            label@,
            match value {
                Some(v) => Some(v@),
                None => None,
            },
        ),
{
    match value {
        Some(v) => {
            push_line(lines, line2(label, v.as_str()));
        },
        None => {},
    }
    assert(lines_view(lines@) =~= lines_view(old(lines)@) + optional_line(
        label@,
        match value {
            Some(v) => Some(v@),
            None => None,
        },
    ));
}

fn library_lines(lib: &LibraryInfo) -> (lines: Vec<Vec<Segment>>)
    ensures
        lines_view(lines@) == library_details(lib@),
{
    let mut lines: Vec<Vec<Segment>> = Vec::new();
    assert(lines_view(lines@) =~= Seq::<Seq<SegmentView>>::empty());
    push_line(&mut lines, line2("Name: ", lib.name.as_str()));
    push_line(&mut lines, line2("Version: ", lib.version.as_str()));
    let ghost head = lines_view(lines@);
    assert(head =~= seq![labelled_line("Name: "@, lib@.name), labelled_line("Version: "@, lib@.version)]);
    push_optional(&mut lines, "Author: ", &lib.author);
    push_optional(&mut lines, "Category: ", &lib.category);
    let ghost fields = lines_view(lines@);
    match &lib.sentence {
        Some(t) => {
            push_line(&mut lines, line1("", Tone::Plain));
            push_line(&mut lines, line1("Description:", Tone::Bold));
            push_line(&mut lines, line1(t.as_str(), Tone::Plain));
        },
        None => {},
    }
    assert(lines_view(lines@) =~= fields + description_lines(lib@.sentence));
    let ghost described = lines_view(lines@);
    push_line(&mut lines, line1("", Tone::Plain));
    if lib.is_installed {
        push_line(&mut lines, line1("Status: Installed", Tone::Installed));
    } else {
        push_line(&mut lines, line1("Status: Not Installed", Tone::NotInstalled));
    }
    assert(lines_view(lines@) =~= described + installed_lines(lib@.is_installed));
    assert(library_details(lib@) =~= head + optional_line("Author: "@, lib@.author) + optional_line(
        "Category: "@,
        lib@.category,
    ) + description_lines(lib@.sentence) + installed_lines(lib@.is_installed));
    lines
}

/// The details pane for the state of `app`.
pub fn detail_lines(app: &App) -> (lines: Vec<Vec<Segment>>)
    ensures
        lines_view(lines@) == details_text(app@),
{
    match app.selected {
        Some(i) => {
            if i < app.libraries.len() {
                return library_lines(&app.libraries[i]);
            }
        },
        None => {},
    }
    let mut lines: Vec<Vec<Segment>> = Vec::new();
    push_line(&mut lines, line1("No library selected", Tone::Plain));
    assert(lines_view(lines@) =~= seq![plain_line("No library selected"@)]);
    lines
}

/// The text of the help popup.
pub open spec fn help_text() -> Seq<Seq<SegmentView>> {
    seq![
        seq![seg("Navigation"@, Tone::Bold)],
        plain_line("  j / Down   : Move down"@),
        plain_line("  k / Up     : Move up"@),
        plain_line(""@),
        seq![seg("Actions"@, Tone::Bold)],
        plain_line("  /          : Search for a library"@),
        plain_line("  i          : Install selected library"@),
        plain_line("  u          : Uninstall selected library"@),
        plain_line(""@),
        seq![seg("General"@, Tone::Bold)],
        plain_line("  ? / h      : Toggle this help menu"@),
        plain_line("  q          : Quit application"@),
    ]
}

/// The lines of the help popup.
pub fn help_lines() -> (lines: Vec<Vec<Segment>>)
    ensures
        lines_view(lines@) == help_text(),
{
    let mut lines: Vec<Vec<Segment>> = Vec::new();
    assert(lines_view(lines@) =~= Seq::<Seq<SegmentView>>::empty());
    push_line(&mut lines, line1("Navigation", Tone::Bold));
    push_line(&mut lines, line1("  j / Down   : Move down", Tone::Plain));
    push_line(&mut lines, line1("  k / Up     : Move up", Tone::Plain));
    push_line(&mut lines, line1("", Tone::Plain));
    push_line(&mut lines, line1("Actions", Tone::Bold));
    push_line(&mut lines, line1("  /          : Search for a library", Tone::Plain));
    push_line(&mut lines, line1("  i          : Install selected library", Tone::Plain));
    push_line(&mut lines, line1("  u          : Uninstall selected library", Tone::Plain));
    push_line(&mut lines, line1("", Tone::Plain));
    push_line(&mut lines, line1("General", Tone::Bold));
    push_line(&mut lines, line1("  ? / h      : Toggle this help menu", Tone::Plain));
    push_line(&mut lines, line1("  q          : Quit application", Tone::Plain));
    assert(lines_view(lines@) =~= help_text());
    lines
}

} // verus!
