//! One function per dialog: each turns its arguments into exactly what the
//! matching native entry point is to be called with.
//!
//! Nothing here shows a dialog. The caller performs the native call with the
//! buffers and integers of the returned value and hands the outcome to the
//! functions of [`crate::reply`].

use crate::kinds::{BoxButton, DefaultColorValue, Icon, MessageBox};
use crate::text::{c_text, contains_nul, has_nul, CText};
use libc::c_int;
use vstd::prelude::*;

verus! {

/// True when one of the texts holds a NUL character.
pub open spec fn any_has_nul(texts: Seq<Seq<char>>) -> bool {
    exists|i: int| 0 <= i < texts.len() && has_nul(#[trigger] texts[i])
}

/// The buffers of a list of texts, in order.
pub open spec fn c_texts(texts: Seq<Seq<char>>) -> Seq<Seq<u8>> {
    Seq::new(texts.len(), |i: int| c_text(texts[i]))
}

/// True when a text of the filter holds a NUL character.
pub open spec fn filter_has_nul(filter: Option<(Seq<Seq<char>>, Seq<char>)>) -> bool {
    match filter {
        Some((patterns, description)) => any_has_nul(patterns) || has_nul(description),
        None => false,
    }
}

/// The patterns of a filter; none when there is no filter.
pub open spec fn filter_patterns(filter: Option<(Seq<Seq<char>>, Seq<char>)>) -> Seq<Seq<char>> {
    match filter {
        Some((patterns, _)) => patterns,
        None => Seq::empty(),
    }
}

/// The description of a filter; empty when there is no filter.
pub open spec fn filter_description(filter: Option<(Seq<Seq<char>>, Seq<char>)>) -> Seq<char> {
    match filter {
        Some((_, description)) => description,
        None => Seq::empty(),
    }
}

/// A length as the C integer it is passed as. Lengths beyond the range of a C
/// integer wrap, as the conversion by `as` does.
pub open spec fn c_count(len: nat) -> c_int {
    len as c_int
}

/// Tells whether one of the texts holds a NUL character.
pub fn any_contains_nul(texts: &[&str]) -> (found: bool)
    ensures
        found == any_has_nul(texts.deep_view()),
{
    let mut i: usize = 0;
    while i < texts.len()
        invariant
            i <= texts@.len(),
            forall|k: int| 0 <= k < i ==> !has_nul(#[trigger] texts.deep_view()[k]),
        decreases texts@.len() - i,
    {
        assert(texts.deep_view()[i as int] == texts@[i as int]@);
        if contains_nul(texts[i]) {
            return true;
        }
        i += 1;
    }
    false
}

/// Tells whether a text of the filter holds a NUL character.
pub fn filter_contains_nul(filter: Option<(&[&str], &str)>) -> (found: bool)
    ensures
        found == filter_has_nul(filter.deep_view()),
{
    match filter {
        Some((patterns, description)) => contains_nul(description) || any_contains_nul(patterns),
        None => false,
    }
}

/// Marshals a text that is known to hold no NUL character.
fn marshal(text: &str) -> (buffer: CText)
    requires
        !has_nul(text@),
    ensures
        buffer@ == c_text(text@),
{
    CText::new(text).unwrap()
}

/// Marshals each text of a list, in order.
fn marshal_all(texts: &[&str]) -> (buffers: Vec<CText>)
    requires
        !any_has_nul(texts.deep_view()),
    ensures
        buffers.deep_view() == c_texts(texts.deep_view()),
{
    let mut buffers: Vec<CText> = Vec::new();
    let mut i: usize = 0;
    while i < texts.len()
        invariant
            i <= texts@.len(),
            !any_has_nul(texts.deep_view()),
            buffers@.len() == i,
            forall|k: int| 0 <= k < i ==> (#[trigger] buffers@[k])@ == c_text(texts@[k]@),
        decreases texts@.len() - i,
    {
        assert(texts.deep_view()[i as int] == texts@[i as int]@);
        buffers.push(marshal(texts[i]));
        i += 1;
    }
    assert(buffers.deep_view() =~= c_texts(texts.deep_view()));
    buffers
}

/// The number of items of a list as a C integer.
fn count(len: usize) -> (n: c_int)
    ensures
        n == c_count(len as nat),
{
    #[verifier::truncate]
    (len as c_int)
}

/// What the native message box is called with.
#[derive(Debug, Clone, PartialEq, Eq)]
pub struct MessageBoxCall {
    /// The window title.
    pub title: CText,
    /// The message shown in the box.
    pub message: CText,
    /// The word for the kind of box.
    pub dialog_type: CText,
    /// The word for the icon.
    pub icon_type: CText,
    /// The code of the button that is selected at first.
    pub default_button: c_int,
}

/// A [`MessageBoxCall`] as plain values.
pub struct MessageBoxArgs {
    pub title: Seq<u8>,
    pub message: Seq<u8>,
    pub dialog_type: Seq<u8>,
    pub icon_type: Seq<u8>,
    pub default_button: c_int,
}

impl View for MessageBoxCall {
    type V = MessageBoxArgs;

    open spec fn view(&self) -> MessageBoxArgs {
        MessageBoxArgs {
            title: self.title@,
            message: self.message@,
            dialog_type: self.dialog_type@,
            icon_type: self.icon_type@,
            default_button: self.default_button,
        }
    }
}

impl DeepView for MessageBoxCall {
    type V = MessageBoxArgs;

    open spec fn deep_view(&self) -> MessageBoxArgs {
        self@
    }
}

/// The call that shows a message box: an absent icon is `Info`, an absent
/// default button is `OkYes`.
pub open spec fn message_box_args(
    kind: MessageBox,
    title: Seq<char>,
    message: Seq<char>,
    icon: Option<Icon>,
    default_button: Option<BoxButton>,
) -> MessageBoxArgs {
    MessageBoxArgs {
        title: c_text(title),
        message: c_text(message),
        dialog_type: c_text(kind.name()),
        icon_type: c_text(
            match icon {
                Some(i) => i.name(),
                None => Icon::Info.name(),
            },
        ),
        default_button: match default_button {
            Some(b) => b.spec_code(),
            None => BoxButton::OkYes.spec_code(),
        },
    }
}

/// Prepares a simple message box of the given kind, title, and message.
///
/// Optionally, an icon type can be given, and the default selected button for
/// the message box. Which button was clicked is read from the native result
/// with [`BoxButton::from_code`].
pub fn message_box(
    kind: MessageBox,
    title: &str,
    message: &str,
    icon: Option<Icon>,
    default_button: Option<BoxButton>,
) -> (call: MessageBoxCall)
    requires
        !has_nul(title@),
        !has_nul(message@),
    ensures
        call@ == message_box_args(kind, title@, message@, icon, default_button),
{
    let title = marshal(title);
    let message = marshal(message);
    let dialog_type = marshal(kind.to_str());
    let icon_type = marshal(
        match icon {
            Some(i) => i,
            None => Icon::Info,
        }.to_str(),
    );
    let default_button = match default_button {
        Some(b) => b,
        None => BoxButton::OkYes,
    }.code();
    MessageBoxCall { title, message, dialog_type, icon_type, default_button }
}

/// What the native input box is called with.
#[derive(Debug, Clone, PartialEq, Eq)]
pub struct InputBoxCall {
    /// The window title.
    pub title: CText,
    /// The message shown above the input field.
    pub message: CText,
    /// The text the field starts with. `None` is passed as a null pointer and
    /// asks for a masked field.
    pub default_input: Option<CText>,
}

/// An [`InputBoxCall`] as plain values.
pub struct InputBoxArgs {
    pub title: Seq<u8>,
    pub message: Seq<u8>,
    pub default_input: Option<Seq<u8>>,
}

impl View for InputBoxCall {
    type V = InputBoxArgs;

    open spec fn view(&self) -> InputBoxArgs {
        InputBoxArgs {
            title: self.title@,
            message: self.message@,
            default_input: self.default_input.deep_view(),
        }
    }
}

impl DeepView for InputBoxCall {
    type V = InputBoxArgs;

    open spec fn deep_view(&self) -> InputBoxArgs {
        self@
    }
}

/// The call that shows an input box with exactly the given default input; with
/// none, the native library masks what is typed.
pub open spec fn prompt_args(
    title: Seq<char>,
    message: Seq<char>,
    default_input: Option<Seq<char>>,
) -> InputBoxArgs {
    InputBoxArgs {
        title: c_text(title),
        message: c_text(message),
        default_input: match default_input {
            Some(d) => Some(c_text(d)),
            None => None,
        },
    }
}

/// The call that [`input_box`] prepares: a default that is left out is
/// passed as the empty text.
pub open spec fn input_box_args(
    title: Seq<char>,
    message: Seq<char>,
    default: Option<Seq<char>>,
) -> InputBoxArgs {
    prompt_args(
        title,
        message,
        Some(
            match default {
                Some(d) => d,
                None => Seq::empty(),
            },
        ),
    )
}

/// The call that [`password_box`] prepares: no default input at all.
pub open spec fn password_box_args(title: Seq<char>, message: Seq<char>) -> InputBoxArgs {
    prompt_args(title, message, None)
}

fn input_box_impl(title: &str, message: &str, default: Option<&str>) -> (call: InputBoxCall)
    requires
        !has_nul(title@),
        !has_nul(message@),
        default matches Some(d) ==> !has_nul(d@),
    ensures
        call@ == prompt_args(title@, message@, default.deep_view()),
{
    let title = marshal(title);
    let message = marshal(message);
    let default_input = match default {
        Some(d) => Some(marshal(d)),
        None => None,
    };
    InputBoxCall { title, message, default_input }
}

/// Prepares a simple input box with the given title, message and optionally a
/// default value. Without a default the field starts empty.
pub fn input_box(title: &str, message: &str, default: Option<&str>) -> (call: InputBoxCall)
    requires
        !has_nul(title@),
        !has_nul(message@),
        default matches Some(d) ==> !has_nul(d@),
    ensures
        call@ == input_box_args(title@, message@, default.deep_view()),
{
    let shown = match default {
        Some(d) => d,
        None => {
            proof {
                reveal_strlit("");
            }
            ""
        },
    };
    assert(default is None ==> shown@ =~= Seq::<char>::empty());
    input_box_impl(title, message, Some(shown))
}

/// Prepares a simple masked input box suitable for passwords, with the given
/// title and message. No default is passed, not even an empty one.
pub fn password_box(title: &str, message: &str) -> (call: InputBoxCall)
    requires
        !has_nul(title@),
        !has_nul(message@),
    ensures
        call@ == password_box_args(title@, message@),
{
    input_box_impl(title, message, None)
}

/// Leaving the default of [`input_box`] out is the same as giving the empty
/// text: either way a lone NUL is passed. [`password_box`] passes no default,
/// so its call is never that of an [`input_box`].
pub proof fn lemma_input_box_default(
    title: Seq<char>,
    message: Seq<char>,
    default: Option<Seq<char>>,
)
    ensures
        input_box_args(title, message, None) == input_box_args(
            title,
            message,
            Some(Seq::empty()),
        ),
        input_box_args(title, message, None).default_input == Some(seq![0u8]),
        input_box_args(title, message, default).default_input is Some,
        password_box_args(title, message).default_input is None,
        password_box_args(title, message) != input_box_args(title, message, default),
{
    reveal_with_fuel(vstd::utf8::encode_utf8, 1);
    assert(c_text(Seq::<char>::empty()) =~= seq![0u8]);
}

/// What the native save dialog is called with.
#[derive(Debug, Clone, PartialEq, Eq)]
pub struct SaveFileCall {
    /// The window title.
    pub title: CText,
    /// The path and file name the dialog starts with.
    pub path: CText,
    /// The number of filter patterns, as passed beside them.
    pub pattern_count: c_int,
    /// The filter patterns.
    pub patterns: Vec<CText>,
    /// The description of the filter.
    pub description: CText,
}

/// A [`SaveFileCall`] as plain values.
pub struct SaveFileArgs {
    pub title: Seq<u8>,
    pub path: Seq<u8>,
    pub pattern_count: c_int,
    pub patterns: Seq<Seq<u8>>,
    pub description: Seq<u8>,
}

impl View for SaveFileCall {
    type V = SaveFileArgs;

    open spec fn view(&self) -> SaveFileArgs {
        SaveFileArgs {
            title: self.title@,
            path: self.path@,
            pattern_count: self.pattern_count,
            patterns: self.patterns.deep_view(),
            description: self.description@,
        }
    }
}

impl DeepView for SaveFileCall {
    type V = SaveFileArgs;

    open spec fn deep_view(&self) -> SaveFileArgs {
        self@
    }
}

/// The call that shows a save dialog: without a filter no pattern is passed
/// and the description is empty.
pub open spec fn save_file_args(
    title: Seq<char>,
    path: Seq<char>,
    filter: Option<(Seq<Seq<char>>, Seq<char>)>,
) -> SaveFileArgs {
    SaveFileArgs {
        title: c_text(title),
        path: c_text(path),
        pattern_count: c_count(filter_patterns(filter).len()),
        patterns: c_texts(filter_patterns(filter)),
        description: c_text(filter_description(filter)),
    }
}

/// Marshals the filter of a file dialog: the pattern count, the patterns and
/// the description.
fn marshal_filter(filter: Option<(&[&str], &str)>) -> (made: (c_int, Vec<CText>, CText))
    requires
        !filter_has_nul(filter.deep_view()),
    ensures
        made.0 == c_count(filter_patterns(filter.deep_view()).len()),
        made.1.deep_view() == c_texts(filter_patterns(filter.deep_view())),
        made.2@ == c_text(filter_description(filter.deep_view())),
{
    match filter {
        Some((patterns, description)) => {
            let description = marshal(description);
            let buffers = marshal_all(patterns);
            (count(patterns.len()), buffers, description)
        },
        None => {
            proof {
                reveal_strlit("");
            }
            let description = marshal("");
            let buffers: Vec<CText> = Vec::new();
            assert(buffers.deep_view() =~= c_texts(Seq::empty()));
            assert(description@ == c_text(Seq::empty())) by {
                assert(""@ =~= Seq::<char>::empty());
            }
            (0, buffers, description)
        },
    }
}

fn save_file_dialog_impl(title: &str, path: &str, filter: Option<(&[&str], &str)>) -> (call:
    SaveFileCall)
    requires
        !has_nul(title@),
        !has_nul(path@),
        !filter_has_nul(filter.deep_view()),
    ensures
        call@ == save_file_args(title@, path@, filter.deep_view()),
{
    let title = marshal(title);
    let path = marshal(path);
    let (pattern_count, patterns, description) = marshal_filter(filter);
    SaveFileCall { title, path, pattern_count, patterns, description }
}

/// Prepares a save file dialog with support for filtering file patterns.
pub fn save_file_dialog_with_filter(
    title: &str,
    path: &str,
    filter_patterns: &[&str],
    description: &str,
) -> (call: SaveFileCall)
    requires
        !has_nul(title@),
        !has_nul(path@),
        !any_has_nul(filter_patterns.deep_view()),
        !has_nul(description@),
    ensures
        call@ == save_file_args(
            title@,
            path@,
            Some((filter_patterns.deep_view(), description@)),
        ),
{
    save_file_dialog_impl(title, path, Some((filter_patterns, description)))
}

/// Prepares a save file dialog without file pattern filters.
pub fn save_file_dialog(title: &str, path: &str) -> (call: SaveFileCall)
    requires
        !has_nul(title@),
        !has_nul(path@),
    ensures
        call@ == save_file_args(title@, path@, None),
{
    save_file_dialog_impl(title, path, None)
}

/// What the native open dialog is called with.
#[derive(Debug, Clone, PartialEq, Eq)]
pub struct OpenFileCall {
    /// The window title.
    pub title: CText,
    /// The path and file name the dialog starts with.
    pub path: CText,
    /// The number of filter patterns, as passed beside them.
    pub pattern_count: c_int,
    /// The filter patterns.
    pub patterns: Vec<CText>,
    /// The description of the filter.
    pub description: CText,
    /// 1 when several files may be chosen, 0 when only one.
    pub allow_multiple: c_int,
}

/// An [`OpenFileCall`] as plain values.
pub struct OpenFileArgs {
    pub title: Seq<u8>,
    pub path: Seq<u8>,
    pub pattern_count: c_int,
    pub patterns: Seq<Seq<u8>>,
    pub description: Seq<u8>,
    pub allow_multiple: c_int,
}

impl View for OpenFileCall {
    type V = OpenFileArgs;

    open spec fn view(&self) -> OpenFileArgs {
        OpenFileArgs {
            title: self.title@,
            path: self.path@,
            pattern_count: self.pattern_count,
            patterns: self.patterns.deep_view(),
            description: self.description@,
            allow_multiple: self.allow_multiple,
        }
    }
}

impl DeepView for OpenFileCall {
    type V = OpenFileArgs;

    open spec fn deep_view(&self) -> OpenFileArgs {
        self@
    }
}

/// The call that shows an open dialog: the filter goes as in a save dialog,
/// and the last argument says whether several files may be chosen.
pub open spec fn open_file_args(
    title: Seq<char>,
    path: Seq<char>,
    filter: Option<(Seq<Seq<char>>, Seq<char>)>,
    multi: bool,
) -> OpenFileArgs {
    OpenFileArgs {
        title: c_text(title),
        path: c_text(path),
        pattern_count: c_count(filter_patterns(filter).len()),
        patterns: c_texts(filter_patterns(filter)),
        description: c_text(filter_description(filter)),
        allow_multiple: if multi {
            1
        } else {
            0
        },
    }
}

fn open_file_dialog_impl(
    title: &str,
    path: &str,
    filter: Option<(&[&str], &str)>,
    multi: bool,
) -> (call: OpenFileCall)
    requires
        !has_nul(title@),
        !has_nul(path@),
        !filter_has_nul(filter.deep_view()),
    ensures
        call@ == open_file_args(title@, path@, filter.deep_view(), multi),
{
    let title = marshal(title);
    let path = marshal(path);
    let (pattern_count, patterns, description) = marshal_filter(filter);
    let allow_multiple: c_int = if multi {
        1
    } else {
        0
    };
    OpenFileCall { title, path, pattern_count, patterns, description, allow_multiple }
}

/// Prepares an open file dialog for a single file and optional file pattern
/// filters. The chosen file is read from the native result with
/// [`crate::reply::first_path_reply`].
pub fn open_file_dialog(title: &str, path: &str, filter: Option<(&[&str], &str)>) -> (call:
    OpenFileCall)
    requires
        !has_nul(title@),
        !has_nul(path@),
        !filter_has_nul(filter.deep_view()),
    ensures
        call@ == open_file_args(title@, path@, filter.deep_view(), false),
{
    open_file_dialog_impl(title, path, filter, false)
}

/// Prepares an open file dialog with support for multiple files at a time.
/// The chosen files are read from the native result with
/// [`crate::reply::paths_reply`].
pub fn open_file_dialog_multi(title: &str, path: &str, filter: Option<(&[&str], &str)>) -> (call:
    OpenFileCall)
    requires
        !has_nul(title@),
        !has_nul(path@),
        !filter_has_nul(filter.deep_view()),
    ensures
        call@ == open_file_args(title@, path@, filter.deep_view(), true),
{
    open_file_dialog_impl(title, path, filter, true)
}

/// What the native folder dialog is called with.
#[derive(Debug, Clone, PartialEq, Eq)]
pub struct SelectFolderCall {
    /// The window title.
    pub title: CText,
    /// The folder the dialog starts in.
    pub path: CText,
}

/// A [`SelectFolderCall`] as plain values.
pub struct SelectFolderArgs {
    pub title: Seq<u8>,
    pub path: Seq<u8>,
}

impl View for SelectFolderCall {
    type V = SelectFolderArgs;

    open spec fn view(&self) -> SelectFolderArgs {
        SelectFolderArgs { title: self.title@, path: self.path@ }
    }
}

impl DeepView for SelectFolderCall {
    type V = SelectFolderArgs;

    open spec fn deep_view(&self) -> SelectFolderArgs {
        self@
    }
}

/// The call that shows a folder dialog.
pub open spec fn select_folder_args(title: Seq<char>, path: Seq<char>) -> SelectFolderArgs {
    SelectFolderArgs { title: c_text(title), path: c_text(path) }
}

/// Prepares a dialog for selecting filesystem folders.
pub fn select_folder_dialog(title: &str, path: &str) -> (call: SelectFolderCall)
    requires
        !has_nul(title@),
        !has_nul(path@),
    ensures
        call@ == select_folder_args(title@, path@),
{
    let title = marshal(title);
    let path = marshal(path);
    SelectFolderCall { title, path }
}

/// What the native list dialog is called with.
#[derive(Debug, Clone, PartialEq, Eq)]
pub struct ListDialogCall {
    /// The window title.
    pub title: CText,
    /// The number of columns, as passed beside them.
    pub column_count: c_int,
    /// The column names.
    pub columns: Vec<CText>,
    /// The number of whole rows that the cells fill.
    pub row_count: c_int,
    /// The cell values, row by row.
    pub cells: Vec<CText>,
}

/// A [`ListDialogCall`] as plain values.
pub struct ListDialogArgs {
    pub title: Seq<u8>,
    pub column_count: c_int,
    pub columns: Seq<Seq<u8>>,
    pub row_count: c_int,
    pub cells: Seq<Seq<u8>>,
}

impl View for ListDialogCall {
    type V = ListDialogArgs;

    open spec fn view(&self) -> ListDialogArgs {
        ListDialogArgs {
            title: self.title@,
            column_count: self.column_count,
            columns: self.columns.deep_view(),
            row_count: self.row_count,
            cells: self.cells.deep_view(),
        }
    }
}

impl DeepView for ListDialogCall {
    type V = ListDialogArgs;

    open spec fn deep_view(&self) -> ListDialogArgs {
        self@
    }
}

/// The cells of a list dialog; none when no cells are given.
pub open spec fn list_cells(cells: Option<Seq<Seq<char>>>) -> Seq<Seq<char>> {
    match cells {
        Some(c) => c,
        None => Seq::empty(),
    }
}

/// The call that shows a list dialog, or `None` when there is no column and
/// so nothing to call. The row count is the number of whole rows: cells that
/// do not fill a last row are passed but not counted.
pub open spec fn list_dialog_args(
    title: Seq<char>,
    columns: Seq<Seq<char>>,
    cells: Option<Seq<Seq<char>>>,
) -> Option<ListDialogArgs> {
    if columns.len() == 0 {
        None
    } else {
        Some(
            ListDialogArgs {
                title: c_text(title),
                column_count: c_count(columns.len()),
                columns: c_texts(columns),
                row_count: c_count((list_cells(cells).len() / columns.len()) as nat),
                cells: c_texts(list_cells(cells)),
            },
        )
    }
}

/// True when a list dialog has a column and one of its column names or cell
/// values holds a NUL character.
pub open spec fn list_has_nul(columns: Seq<Seq<char>>, cells: Option<Seq<Seq<char>>>) -> bool {
    columns.len() > 0 && (any_has_nul(columns) || any_has_nul(list_cells(cells)))
}

/// Tells whether a list dialog would have to marshal a text that holds a NUL
/// character. Without a column nothing is marshalled but the title.
pub fn list_contains_nul(columns: &[&str], cells: Option<&[&str]>) -> (found: bool)
    ensures
        found == list_has_nul(columns.deep_view(), cells.deep_view()),
{
    if columns.len() == 0 {
        return false;
    }
    if any_contains_nul(columns) {
        return true;
    }
    match cells {
        Some(c) => any_contains_nul(c),
        None => false,
    }
}

/// Prepares a list chooser dialog, or nothing when no column is given.
fn list_dialog_impl(title: &str, columns: &[&str], cells: Option<&[&str]>) -> (call: Option<
    ListDialogCall,
>)
    requires
        !has_nul(title@),
        !list_has_nul(columns.deep_view(), cells.deep_view()),
    ensures
        call.deep_view() == list_dialog_args(title@, columns.deep_view(), cells.deep_view()),
        call is None <==> columns@.len() == 0,
{
    let title = marshal(title);
    if columns.len() == 0 {
        return None;
    }
    let column_buffers = marshal_all(columns);
    let (cell_count, cell_buffers) = match cells {
        Some(c) => (c.len(), marshal_all(c)),
        None => {
            let none: Vec<CText> = Vec::new();
            assert(none.deep_view() =~= c_texts(Seq::empty()));
            (0, none)
        },
    };
    let row_count = count(cell_count / columns.len());
    Some(
        ListDialogCall {
            title,
            column_count: count(columns.len()),
            columns: column_buffers,
            row_count,
            cells: cell_buffers,
        },
    )
}

/// Prepares a list chooser dialog.
///
/// Without a column there is nothing to show: the result is `None`, no native
/// call is to be made, and the dialog's outcome is absent. The native library
/// has no list dialog on Windows; whether the call can be made where the
/// program runs is for the caller to know.
pub fn list_dialog(title: &str, columns: &[&str], cells: Option<&[&str]>) -> (call: Option<
    ListDialogCall,
>)
    requires
        !has_nul(title@),
        !list_has_nul(columns.deep_view(), cells.deep_view()),
    ensures
        call.deep_view() == list_dialog_args(title@, columns.deep_view(), cells.deep_view()),
        call is None <==> columns@.len() == 0,
{
    list_dialog_impl(title, columns, cells)
}

/// What the native color chooser is called with.
#[derive(Debug, Clone, PartialEq, Eq)]
pub struct ColorChooserCall {
    /// The window title.
    pub title: CText,
    /// The color the chooser starts with, as hex text. `None` is passed as a
    /// null pointer.
    pub default_hex: Option<CText>,
    /// The color the chooser starts with when no hex text is given.
    pub default_rgb: [u8; 3],
}

/// A [`ColorChooserCall`] as plain values.
pub struct ColorChooserArgs {
    pub title: Seq<u8>,
    pub default_hex: Option<Seq<u8>>,
    pub default_rgb: Seq<u8>,
}

impl View for ColorChooserCall {
    type V = ColorChooserArgs;

    open spec fn view(&self) -> ColorChooserArgs {
        ColorChooserArgs {
            title: self.title@,
            default_hex: self.default_hex.deep_view(),
            default_rgb: self.default_rgb@,
        }
    }
}

impl DeepView for ColorChooserCall {
    type V = ColorChooserArgs;

    open spec fn deep_view(&self) -> ColorChooserArgs {
        self@
    }
}

/// The call that shows a color chooser: a hex default goes with three zero
/// bytes in the RGB slot, an RGB default goes without hex text.
pub open spec fn color_chooser_args(title: Seq<char>, default: DefaultColorValue) -> ColorChooserArgs {
    match default {
        DefaultColorValue::Hex(hex) => ColorChooserArgs {
            title: c_text(title),
            default_hex: Some(c_text(hex@)),
            default_rgb: seq![0u8, 0u8, 0u8],
        },
        DefaultColorValue::RGB(rgb) => ColorChooserArgs {
            title: c_text(title),
            default_hex: None,
            default_rgb: rgb@,
        },
    }
}

/// Prepares the system color chooser dialog.
pub fn color_chooser_dialog(title: &str, default: DefaultColorValue) -> (call: ColorChooserCall)
    requires
        !has_nul(title@),
        default matches DefaultColorValue::Hex(hex) ==> !has_nul(hex@),
    ensures
        call@ == color_chooser_args(title@, default),
        default is Hex ==> call.default_hex is Some && call.default_rgb@ == seq![0u8, 0u8, 0u8],
        default is RGB ==> call.default_hex is None && call.default_rgb@ == default->RGB_0@,
{
    let title = marshal(title);
    let zeros: [u8; 3] = [0, 0, 0];
    let (default_hex, default_rgb) = match default {
        DefaultColorValue::Hex(hex) => (Some(marshal(hex)), zeros),
        DefaultColorValue::RGB(rgb) => (None, *rgb),
    };
    assert(zeros@ =~= seq![0u8, 0u8, 0u8]);
    ColorChooserCall { title, default_hex, default_rgb }
}

} // verus!
