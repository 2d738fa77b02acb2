//! Decisions of the process entry point.
//!
//! * The one-shot startup marker is claimed before the arguments are looked
//!   at, so that a first call with invalid arguments still consumes the single
//!   bootstrap attempt.
//! * A null pointer, an empty path and a path that is not UTF-8 are rejected.
//! * The configuration is parsed fail-closed before the worker is started.

use vstd::prelude::*;

use crate::base::DataRoot;
use crate::runtime_config::{config_path, load_config, ParsedConfig};

verus! {

/// `core::str::from_utf8`: the text that the bytes encode, or nothing where
/// they are not valid UTF-8.
#[verifier::external_body]
fn utf8_text(bytes: &[u8]) -> (r: Option<&str>)
    ensures
        r is Some <==> vstd::utf8::valid_utf8(bytes@),
        r is Some ==> r->Some_0@ == vstd::utf8::decode_utf8(bytes@),
{
    core::str::from_utf8(bytes).ok()
}

/// The bytes of a C string: those before the first terminator.
pub open spec fn c_text(bytes: Seq<u8>) -> Seq<u8>
    decreases bytes.len(),
{
    if bytes.len() == 0 || bytes[0] == 0 {
        Seq::empty()
    } else {
        seq![bytes[0]] + c_text(bytes.skip(1))
    }
}

proof fn lemma_c_text(bytes: Seq<u8>, end: int)
    requires
        0 <= end <= bytes.len(),
        forall|i: int| 0 <= i < end ==> bytes[i] != 0,
        end < bytes.len() ==> bytes[end] == 0,
    ensures
        c_text(bytes) == bytes.take(end),
    decreases bytes.len(),
{
    if end == 0 {
        assert(bytes.take(0) =~= Seq::<u8>::empty());
    } else {
        lemma_c_text(bytes.skip(1), end - 1);
        assert(seq![bytes[0]] + bytes.skip(1).take(end - 1) =~= bytes.take(end));
    }
}

/// The path that a C string spells; nothing for a null pointer, an empty
/// string and one that is not UTF-8.
pub open spec fn documents_path(bytes: Option<Seq<u8>>) -> Option<Seq<char>> {
    match bytes {
        None => None,
        Some(bytes) => {
            let text = c_text(bytes);
            if text.len() == 0 || !vstd::utf8::valid_utf8(text) {
                None
            } else {
                Some(vstd::utf8::decode_utf8(text))
            }
        },
    }
}

/// The view of an optional slice.
pub open spec fn bytes_view(bytes: Option<&[u8]>) -> Option<Seq<u8>> {
    match bytes {
        Some(bytes) => Some(bytes@),
        None => None,
    }
}

/// Validates and copies the path behind a C string pointer; `None` stands for
/// the null pointer.
pub fn copy_documents_path(bytes: Option<&[u8]>) -> (r: Option<String>)
    ensures
        r is Some <==> documents_path(bytes_view(bytes)) is Some,
        r is Some ==> r->Some_0@ == documents_path(bytes_view(bytes))->Some_0,
{
    let bytes: &[u8] = match bytes {
        Some(bytes) => bytes,
        None => return None,
    };
    let mut end: usize = 0;
    while end < bytes.len() && bytes[end] != 0
        invariant
            end <= bytes.len(),
            forall|i: int| 0 <= i < end ==> bytes@[i] != 0,
        decreases bytes.len() - end,
    {
        end = end + 1;
    }
    proof {
        lemma_c_text(bytes@, end as int);
    }
    if end == 0 {
        return None;
    }
    let text: &[u8] = vstd::slice::slice_subrange(bytes, 0, end);
    assert(text@ =~= bytes@.take(end as int));
    match utf8_text(text) {
        Some(path) => Some(path.to_owned()),
        None => None,
    }
}

/// One-shot process startup marker.
#[derive(Debug)]
pub struct StartMarker {
    started: bool,
}

impl StartMarker {
    /// Whether the marker was claimed.
    pub closed spec fn is_claimed(&self) -> bool {
        self.started
    }

    pub fn new() -> (r: Self)
        ensures
            !r.is_claimed(),
    {
        StartMarker { started: false }
    }

    /// Claims the marker; `false` where it was claimed before.
    pub fn claim(&mut self) -> (r: bool)
        ensures
            r == !old(self).is_claimed(),
            final(self).is_claimed(),
    {
        let first: bool = !self.started;
        self.started = true;
        first
    }
}

/// What the entry point does with one call.
pub enum EntryStep {
    /// A duplicate call: it is ignored.
    Duplicate,
    /// The path is invalid: startup is over.
    InvalidPath,
    /// Start the bootstrap worker.
    Start { data_root: DataRoot, config: ParsedConfig },
}

/// One call of the entry point. `read_file` reads the file at a path, if it can;
/// only the configuration is read, and only on a first call with a valid path.
pub fn entry<F: FnOnce(&str) -> Option<String>>(
    marker: &mut StartMarker,
    bytes: Option<&[u8]>,
    read_file: F,
) -> (r: EntryStep)
    requires
        forall|path: &str|
            !old(marker).is_claimed() && documents_path(bytes_view(bytes)) is Some && path@
                == crate::base::joined(
                documents_path(bytes_view(bytes))->Some_0,
                "scsp.toml"@,
            ) ==> #[trigger] read_file.requires((path,)),
    ensures
        final(marker).is_claimed(),
        if old(marker).is_claimed() {
            r is Duplicate
        } else {
            match documents_path(bytes_view(bytes)) {
                None => r is InvalidPath,
                Some(root) => {
                    &&& r is Start
                    &&& r->data_root.root() == root
                    &&& exists|path: &str, text: Option<String>|
                        {
                            &&& path@ == crate::base::joined(root, "scsp.toml"@)
                            &&& #[trigger] read_file.ensures((path,), text)
                            &&& r->config == loaded(text)
                        }
                },
            }
        },
{
    if !marker.claim() {
        return EntryStep::Duplicate;
    }
    let owned: String = match copy_documents_path(bytes) {
        Some(path) => path,
        None => return EntryStep::InvalidPath,
    };
    let data_root = DataRoot::new(owned);
    let path: String = config_path(&data_root);
    let text = read_file(path.as_str());
    let ghost read = text;
    let config = load_config(text);
    assert(config == loaded(read));
    EntryStep::Start { data_root, config }
}

/// The configuration of a file's text, where it could be read.
pub open spec fn loaded(text: Option<String>) -> ParsedConfig {
    match text {
        None => crate::runtime_config::all_off(),
        Some(text) => match crate::runtime_config::toml_parse(text@) {
            None => crate::runtime_config::all_off(),
            Some(tree) => match crate::runtime_config::config_of(tree) {
                None => crate::runtime_config::all_off(),
                Some(config) => config,
            },
        },
    }
}

} // verus!
