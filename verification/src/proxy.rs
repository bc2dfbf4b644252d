//! Handing out stored objects as they are: which object a request path names,
//! and under which status and media type its bytes are sent.

use vstd::prelude::*;
use vstd::string::*;
use mime_guess::MimeGuess;

verus! {

/// The path segments with a slash between each two.
pub open spec fn joined(parts: Seq<Seq<char>>) -> Seq<char>
    decreases parts.len(),
{
    if parts.len() == 0 {
        Seq::empty()
    } else if parts.len() == 1 {
        parts[0]
    } else {
        joined(parts.drop_last()) + seq!['/'] + parts.last()
    }
}

/// A number that can be sent as an HTTP status.
pub open spec fn is_status(code: u16) -> bool {
    100 <= code < 1000
}

/// The media type of bytes of which nothing is known.
pub open spec fn octet_stream() -> Seq<char> {
    "application/octet-stream"@
}

/// The media type that is sent where `types` are the types that fit, the
/// most fitting first: the first of them, and that of unknown bytes where
/// there is none.
pub open spec fn chosen_media_type(types: Seq<Seq<char>>) -> Seq<char> {
    if types.len() > 0 {
        types[0]
    } else {
        octet_stream()
    }
}

/// The key of the object that a request path names: its segments, joined
/// with slashes.
pub fn object_key(parts: &Vec<String>) -> (key: String)
    ensures
        key@ == joined(parts.deep_view()),
{
    let mut key = String::new();
    let mut i: usize = 0;
    while i < parts.len()
        invariant
            i <= parts.len(),
            key@ == joined(parts.deep_view().take(i as int)),
        decreases parts.len() - i,
    {
        let ghost before = parts.deep_view().take(i as int);
        let ghost now = parts.deep_view().take(i + 1);
        if i > 0 {
            key.append("/");
        }
        key.append(parts[i].as_str());
        proof {
            reveal_strlit("/");
            assert(now.drop_last() =~= before);
        }
        i += 1;
    }
    assert(parts.deep_view().take(parts.len() as int) =~= parts.deep_view());
    key
}

/// The status to answer with when the store answered `store_status`: the
/// same number where it is a status, else 500.
pub fn response_status(store_status: u16) -> (status: u16)
    ensures
        status == if is_status(store_status) {
            store_status
        } else {
            500u16
        },
        is_status(status),
{
    if store_status < 100 || store_status >= 1000 {
        500
    } else {
        store_status
    }
}

/// `mime_guess::MimeGuess`, the media types that fit an extension.  Nothing
/// of its inside is known here but what [`media_types`] names.
#[verifier::external_type_specification]
#[verifier::external_body]
pub struct ExMimeGuess(MimeGuess);

/// The media types of a guess, the most fitting first.
pub uninterp spec fn media_types(guess: MimeGuess) -> Seq<Seq<char>>;

/// The media types that `mime_guess::from_path` finds for a path, the most
/// fitting first: those that the crate's table lists for the path's
/// extension, none where the path has no extension or the table does not
/// know it.  The guess reads nothing but the path; how a path is taken apart
/// is that of the target the library is built for.
pub uninterp spec fn guessed_types(path: Seq<char>) -> Seq<Seq<char>>;

/// `mime_guess::from_path`: the guess for a path holds the media types that
/// [`guessed_types`] names for it.  Which types those are is the crate's
/// table; nothing is claimed of them.
#[verifier::external_body]
fn guess_from_path(path: &str) -> (guess: MimeGuess)
    ensures
        media_types(guess) == guessed_types(path@),
{
    mime_guess::from_path(path)
}

/// `MimeGuess::first_raw`: the first media type of a guess, and nothing
/// where the guess is empty.
#[verifier::external_body]
fn first_guessed(guess: &MimeGuess) -> (first: Option<&'static str>)
    ensures
        match first {
            Some(media_type) => media_types(*guess).len() > 0 && media_type@ == media_types(
                *guess,
            )[0],
            None => media_types(*guess).len() == 0,
        },
{
    guess.first_raw()
}

/// The media type to send for a guess: its first type, and that of unknown
/// bytes where it has none.
pub fn media_type_of(guess: &MimeGuess) -> (media_type: String)
    ensures
        media_type@ == chosen_media_type(media_types(*guess)),
{
    match first_guessed(guess) {
        Some(first) => String::from_str(first),
        None => String::from_str("application/octet-stream"),
    }
}

/// The media type to send for the object under `path`: the first of the
/// types guessed for the path by its extension, and that of unknown bytes
/// where none is guessed.
pub fn content_type(path: &str) -> (media_type: String)
    ensures
        media_type@ == chosen_media_type(guessed_types(path@)),
{
    let guess = guess_from_path(path);
    media_type_of(&guess)
}

} // verus!
