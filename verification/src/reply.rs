//! What the native library hands back, turned into owned values.
//!
//! A text result arrives as the bytes at the returned pointer, or as `None`
//! for a null pointer: the user cancelled, or there was no way to show the
//! dialog. The two are not told apart. Reading stops at the first NUL, so the
//! caller may pass the buffer with or without its terminator.

use crate::split::{
    free_of, join, lemma_join_free, lemma_split_join, lemma_split_pieces, split, split_on,
};
use crate::text::{c_text, lemma_text_round_trip, read_text, text_of, until_nul};
use vstd::prelude::*;

verus! {

/// The text of a native result, absent for a null pointer.
pub open spec fn text_of_reply(reply: Option<Seq<u8>>) -> Option<Seq<char>> {
    match reply {
        Some(bytes) => Some(text_of(until_nul(bytes))),
        None => None,
    }
}

/// The paths in the text of an open dialog's result: its pieces between `|`,
/// in order. An empty text holds no path at all.
pub open spec fn paths_of_text(text: Seq<char>) -> Option<Seq<Seq<char>>> {
    if text.len() == 0 {
        None
    } else {
        Some(split_on(text, '|'))
    }
}

/// The paths of an open dialog's result, absent for a null pointer and for an
/// empty text.
pub open spec fn paths_of_reply(reply: Option<Seq<u8>>) -> Option<Seq<Seq<char>>> {
    match text_of_reply(reply) {
        Some(text) => paths_of_text(text),
        None => None,
    }
}

/// The first of the paths of an open dialog's result.
pub open spec fn first_path_of_reply(reply: Option<Seq<u8>>) -> Option<Seq<char>> {
    match paths_of_reply(reply) {
        Some(paths) => Some(paths.first()),
        None => None,
    }
}

/// The color of a color chooser's result: the hex text it returned beside the
/// three bytes it wrote, absent for a null pointer.
pub open spec fn color_of_reply(hex: Option<Seq<u8>>, rgb: Seq<u8>) -> Option<(Seq<char>, Seq<u8>)> {
    match text_of_reply(hex) {
        Some(text) => Some((text, rgb)),
        None => None,
    }
}

/// The single file read from a result is the first of the files read from
/// the same result, and is there exactly when they are. A result of files is
/// never an empty list, and none of its files holds a `|`.
pub proof fn lemma_first_path(reply: Option<Seq<u8>>)
    ensures
        match paths_of_reply(reply) {
            Some(paths) => paths.len() >= 1 && free_of(paths, '|') && first_path_of_reply(reply)
                == Some(paths[0]),
            None => first_path_of_reply(reply) is None,
        },
{
    if let Some(text) = text_of_reply(reply) {
        lemma_split_pieces(text, '|');
    }
}

/// The files that were joined with `|` into a native result are the files
/// read from it, unless the joined text is empty.
pub proof fn lemma_paths_reconstructed(paths: Seq<Seq<char>>)
    requires
        paths.len() >= 1,
        free_of(paths, '|'),
        free_of(paths, '\0'),
        join(paths, '|').len() > 0,
    ensures
        paths_of_reply(Some(c_text(join(paths, '|')))) == Some(paths),
{
    let text = join(paths, '|');
    lemma_join_free(paths, '|', '\0');
    lemma_text_round_trip(text);
    lemma_split_join(paths, '|');
}

/// Reads the text that an input box, a save dialog, a folder dialog or a list
/// dialog returned.
pub fn text_reply(reply: Option<&[u8]>) -> (text: Option<String>)
    ensures
        text.deep_view() == text_of_reply(reply.deep_view()),
{
    match reply {
        Some(bytes) => {
            assert(bytes.deep_view() =~= bytes@);
            Some(read_text(bytes))
        },
        None => None,
    }
}

/// Takes the text of an open dialog's result apart into its paths.
pub fn split_paths(text: &str) -> (paths: Option<Vec<String>>)
    ensures
        paths.deep_view() == paths_of_text(text@),
{
    if text.is_empty() {
        None
    } else {
        Some(split(text, '|'))
    }
}

/// Reads the files that an open dialog for several files returned.
pub fn paths_reply(reply: Option<&[u8]>) -> (paths: Option<Vec<String>>)
    ensures
        paths.deep_view() == paths_of_reply(reply.deep_view()),
{
    match text_reply(reply) {
        Some(text) => split_paths(text.as_str()),
        None => None,
    }
}

/// Reads the file that an open dialog for a single file returned: the first
/// of the files that [`paths_reply`] reads from the same result.
pub fn first_path_reply(reply: Option<&[u8]>) -> (path: Option<String>)
    ensures
        path.deep_view() == first_path_of_reply(reply.deep_view()),
{
    match paths_reply(reply) {
        Some(mut paths) => {
            proof {
                lemma_first_path(reply.deep_view());
            }
            let first = paths.swap_remove(0);
            Some(first)
        },
        None => None,
    }
}

/// Reads the color that a color chooser returned: its hex text and the three
/// bytes that the native call wrote.
pub fn color_reply(hex: Option<&[u8]>, rgb: [u8; 3]) -> (color: Option<(String, [u8; 3])>)
    ensures
        color.deep_view() == color_of_reply(hex.deep_view(), rgb@),
{
    match text_reply(hex) {
        Some(text) => {
            assert(rgb.deep_view() =~= rgb@);
            Some((text, rgb))
        },
        None => None,
    }
}

} // verus!
