//! Clipboard sharing between connected machines
//!
//! What is shared and when: the content types, the change detection that
//! decides when a local change is broadcast, and the conversions between
//! clipboard content and protocol messages. Reading and writing the system
//! clipboard belongs to the application.

use vstd::prelude::*;
use vstd::utf8::*;
use vstd::string::*;
use vstd::slice::slice_to_vec;
use crate::protocol::{ClipboardFormat, Message, SpecMessage};
use crate::config::ClipboardConfig;
use crate::text::utf8_string;

verus! {

/// Clipboard content that can be shared
#[derive(Debug, Clone)]
pub enum ClipboardContent {
    Text(String),
    Image { width: u32, height: u32, rgba_data: Vec<u8> },
    Files(Vec<String>),
}

/// The strings of `list` joined by `sep`.
pub open spec fn seq_join(list: Seq<Seq<char>>, sep: Seq<char>) -> Seq<char>
    decreases list.len(),
{
    if list.len() == 0 {
        Seq::empty()
    } else if list.len() == 1 {
        list[0]
    } else {
        seq_join(list.drop_last(), sep) + sep + list.last()
    }
}

/// The total length of the strings of `list`.
pub open spec fn total_len(list: Seq<Seq<char>>) -> int
    decreases list.len(),
{
    if list.len() == 0 {
        0
    } else {
        total_len(list.drop_last()) + list.last().len()
    }
}

/// Joining strings with a separator puts exactly one separator between every
/// two neighbours: a single string is joined to itself; cut anywhere between
/// two strings, the join is the join of the strings before the cut, one
/// separator, and the join of those after it; and its length is the strings'
/// total length plus one separator fewer than there are strings.
pub proof fn lemma_join_layout(list: Seq<Seq<char>>, sep: Seq<char>)
    ensures
        list.len() == 1 ==> seq_join(list, sep) == list[0],
        forall|k: int|
            0 < k < list.len() ==> seq_join(list, sep) == seq_join(#[trigger] list.take(k), sep) + sep
                + seq_join(list.skip(k), sep),
        list.len() >= 1 ==> seq_join(list, sep).len() == total_len(list) + (list.len() - 1)
            * sep.len(),
    decreases list.len(),
{
    let n = list.len() as int;
    if n >= 2 {
        let l2 = list.drop_last();
        lemma_join_layout(l2, sep);
        assert forall|k: int| 0 < k < n implies seq_join(list, sep) == seq_join(
            #[trigger] list.take(k),
            sep,
        ) + sep + seq_join(list.skip(k), sep) by {
            if k == n - 1 {
                assert(list.take(k) =~= l2);
                assert(list.skip(k) =~= seq![list.last()]);
            } else {
                assert(list.take(k) =~= l2.take(k));
                let s = list.skip(k);
                assert(s.drop_last() =~= l2.skip(k));
                assert(s.last() == list.last());
                assert(seq_join(s, sep) == seq_join(l2.skip(k), sep) + sep + list.last());
                assert(seq_join(list, sep) == seq_join(l2, sep) + sep + list.last());
                assert(seq_join(l2, sep) == seq_join(l2.take(k), sep) + sep + seq_join(l2.skip(k), sep));
                assert(seq_join(list, sep) =~= seq_join(list.take(k), sep) + sep + seq_join(s, sep));
            }
        }
        assert(seq_join(list, sep).len() == total_len(list) + (n - 1) * sep.len()) by (nonlinear_arith)
            requires
                seq_join(list, sep).len() == seq_join(l2, sep).len() + sep.len() + list.last().len(),
                seq_join(l2, sep).len() == total_len(l2) + (n - 2) * sep.len(),
                total_len(list) == total_len(l2) + list.last().len(),
        ;
    } else if n == 1 {
        assert(list.drop_last() =~= Seq::<Seq<char>>::empty());
        assert(total_len(list.drop_last()) == 0);
        assert(total_len(list) == list[0].len());
        assert(seq_join(list, sep) == list[0]);
    }
}

pub open spec fn string_views(v: Seq<String>) -> Seq<Seq<char>> {
    v.map_values(|s: String| s@)
}

/// File paths are shared as text: one path per line.
pub fn files_as_text(files: &Vec<String>) -> (text: String)
    ensures
        text@ == seq_join(string_views(files@), "\n"@),
{
    let mut text = String::new();
    let ghost all = string_views(files@);
    let mut i: usize = 0;
    while i < files.len()
        invariant
            i <= files@.len(),
            all == string_views(files@),
            text@ == seq_join(all.take(i as int), "\n"@),
        decreases files@.len() - i,
    {
        assert(all.take(i + 1).drop_last() =~= all.take(i as int));
        if i != 0 {
            text.append("\n");
        }
        text.append(files[i].as_str());
        assert(all.take(i + 1).last() == files@[i as int]@);
        if i == 0 {
            assert(text@ =~= seq_join(all.take(1), "\n"@));
        }
        i = i + 1;
    }
    assert(all.take(files@.len() as int) =~= all);
    text
}

/// The content offered for sharing when the clipboard was read: its text,
/// unless reading failed or the text is empty.
pub fn content_from_text(text: Option<String>) -> (r: Option<ClipboardContent>)
    ensures
        match text {
            Some(t) => if t@.len() > 0 {
                r matches Some(ClipboardContent::Text(u)) && u@ == t@
            } else {
                r is None
            },
            None => r is None,
        },
{
    match text {
        Some(t) => {
            if t.as_str().is_empty() {
                None
            } else {
                Some(ClipboardContent::Text(t))
            }
        },
        None => None,
    }
}

/// Whether content with hash `hash` differs from the content last seen.
pub open spec fn is_change(last: Option<u64>, hash: u64) -> bool {
    last != Some(hash)
}

/// Content seen once is not a change the second time it is seen, and the
/// first content ever seen always is.
pub proof fn lemma_change_once(hash: u64)
    ensures
        !is_change(Some(hash), hash),
        is_change(None, hash),
{
}

/// The text that a clipboard message carries is read back unchanged by the
/// receiver.
pub proof fn lemma_clipboard_text_roundtrip(text: Seq<char>)
    ensures
        valid_utf8(encode_utf8(text)),
        decode_utf8(encode_utf8(text)) == text,
{
    encode_utf8_valid_utf8(text);
    encode_utf8_decode_utf8(text);
}

/// The hash of a text as `std`'s `DefaultHasher` (created by `new`, whose
/// keys are fixed) computes it by hashing the `str`.
pub uninterp spec fn text_hash(text: Seq<char>) -> u64;

/// `BuildHasher::hash_one` with `BuildHasherDefault<DefaultHasher>`: the
/// `DefaultHasher::new()` hash of the text, the same for the same text.
#[verifier::external_body]
fn hash_text(text: &str) -> (h: u64)
    ensures
        h == text_hash(text@),
{
    std::hash::BuildHasher::hash_one(&std::hash::BuildHasherDefault::<std::collections::hash_map::DefaultHasher>::default(), text)
}

/// The same clipboard text read twice in a row is broadcast once: after it
/// was observed, observing it again is no change.
pub proof fn lemma_same_text_broadcast_once(last: Option<u64>, text: Seq<char>)
    ensures
        !is_change(Some(text_hash(text)), text_hash(text)),
        last is None ==> is_change(last, text_hash(text)),
{
}

/// Remembers the hash of the clipboard content last seen, so that each
/// change is broadcast once.
pub struct ClipboardWatch {
    last_content_hash: Option<u64>,
}

impl View for ClipboardWatch {
    type V = Option<u64>;

    closed spec fn view(&self) -> Option<u64> {
        self.last_content_hash
    }
}

impl ClipboardWatch {
    pub fn new() -> (w: Self)
        ensures
            w@ is None,
    {
        ClipboardWatch { last_content_hash: None }
    }

    /// Records the hash of the content just read; true when it differs from
    /// the last one seen, which is when the content is to be broadcast.
    pub fn observe(&mut self, hash: u64) -> (changed: bool)
        ensures
            changed == is_change(old(self)@, hash),
            final(self)@ == Some(hash),
    {
        let changed = match self.last_content_hash {
            Some(h) => h != hash,
            None => true,
        };
        self.last_content_hash = Some(hash);
        changed
    }

    /// Records clipboard text just read, by its hash; true when it differs
    /// from the content last seen, which is when it is to be broadcast.
    pub fn observe_text(&mut self, text: &str) -> (changed: bool)
        ensures
            changed == is_change(old(self)@, text_hash(text@)),
            final(self)@ == Some(text_hash(text@)),
    {
        self.observe(hash_text(text))
    }
}

/// Whether clipboard text is shared under `config`: sharing is on, text is
/// shared, and its UTF-8 bytes stay within the size limit.
pub open spec fn text_is_shared(config: ClipboardConfig, text: Seq<char>) -> bool {
    &&& config.enabled
    &&& config.share_text
    &&& encode_utf8(text).len() <= config.max_size_bytes
}

/// Whether this clipboard text is sent to, or taken from, a peer.
pub fn shares_text(config: &ClipboardConfig, text: &str) -> (r: bool)
    ensures
        r == text_is_shared(*config, text@),
{
    config.enabled && config.share_text && text.as_bytes().len() <= config.max_size_bytes
}

/// The message that shares clipboard text: clipboard 0, sequence number 0,
/// format text, and the text's UTF-8 bytes.
pub fn clipboard_text_message(text: &str) -> (m: Message)
    ensures
        m@ == (SpecMessage::ClipboardData {
            clipboard_id: 0,
            sequence_number: 0,
            format: ClipboardFormat::Text,
            data: encode_utf8(text@),
        }),
{
    Message::ClipboardData {
        clipboard_id: 0,
        sequence_number: 0,
        format: ClipboardFormat::Text,
        data: slice_to_vec(text.as_bytes()),
    }
}

/// The text that received clipboard data carries: present when the format is
/// text and the bytes are UTF-8.
pub fn text_of_clipboard_data(format: ClipboardFormat, data: &[u8]) -> (r: Option<String>)
    ensures
        match r {
            Some(t) => format == ClipboardFormat::Text && valid_utf8(data@) && t@ == decode_utf8(
                data@,
            ),
            None => format != ClipboardFormat::Text || !valid_utf8(data@),
        },
{
    if format == ClipboardFormat::Text {
        utf8_string(data)
    } else {
        None
    }
}

} // verus!
