//! The human-readable label of a monitor's source.
//!
//! The `describe_source` entry point fills a scratch buffer with a
//! NUL-terminated label and returns null on failure.
use vstd::prelude::*;

verus! {

/// Size of the scratch buffer handed to `describe_source`.
pub const SOURCE_BUFFER_LEN: usize = 100;

/// What a source resolves to when it cannot be described.
pub const UNKNOWN_SOURCE: &'static str = "UNKNOWN";

/// The text that `String::from_utf8_lossy` decodes from `bytes`.
pub uninterp spec fn lossy_of(bytes: Seq<u8>) -> Seq<char>;

/// Relies on `String::from_utf8_lossy`: it decodes `b`, replacing each malformed
/// sequence with U+FFFD. Bytes below 0x80 are ASCII and decode one to one.
#[verifier::external_body]
fn decode_lossy(b: &[u8]) -> (r: String)
    ensures
        r@ == lossy_of(b@),
        (forall|i: int| 0 <= i < b@.len() ==> b@[i] < 0x80u8) ==> r@ == b@.map_values(
            |c: u8| c as char,
        ),
{
    String::from_utf8_lossy(b).into_owned()
}

/// `k` is where the label in `s` ends: at its first NUL byte, or at its end if it has none.
pub open spec fn label_end(s: Seq<u8>, k: int) -> bool {
    &&& 0 <= k <= s.len()
    &&& forall|i: int| 0 <= i < k ==> s[i] != 0
    &&& k == s.len() || s[k] == 0
}

/// The bytes of the label in `s`: those before its first NUL, or all of them.
pub open spec fn label_bytes(s: Seq<u8>) -> Seq<u8> {
    s.take(choose|k: int| label_end(s, k))
}

/// What the `describe_source` entry point did.
#[derive(Clone, Copy, Debug, PartialEq, Eq, Structural)]
pub enum SourceReply {
    /// The capability table has no `describe_source` entry point.
    Absent,
    /// It returned null: the buffer holds nothing to be read.
    Null,
    /// It returned the buffer, filled with a NUL-terminated label.
    Filled,
}

/// The label that a source resolves to, given what `describe_source` did and
/// the buffer it was handed.
pub open spec fn source_spec(reply: SourceReply, buf: Seq<u8>) -> Seq<char> {
    match reply {
        SourceReply::Filled => lossy_of(label_bytes(buf)),
        _ => UNKNOWN_SOURCE@,
    }
}

/// There is one place where a label ends.
pub proof fn lemma_label_end_unique(s: Seq<u8>, j: int, k: int)
    requires
        label_end(s, j),
        label_end(s, k),
    ensures
        j == k,
{
    if j < k {
        assert(s[j] != 0);
    } else if k < j {
        assert(s[k] != 0);
    }
}

/// The bytes of the label held in `buf`: those before its first NUL, or all of them.
pub fn label_of(buf: &[u8]) -> (r: Vec<u8>)
    ensures
        r@ == label_bytes(buf@),
        label_end(buf@, r@.len() as int),
{
    let mut r: Vec<u8> = Vec::new();
    let mut k: usize = 0;
    while k < buf.len() && buf[k] != 0
        invariant
            0 <= k <= buf@.len(),
            r@ == buf@.take(k as int),
            forall|i: int| 0 <= i < k ==> buf@[i] != 0,
        decreases buf@.len() - k,
    {
        r.push(buf[k]);
        k = k + 1;
        assert(r@ =~= buf@.take(k as int));
    }
    proof {
        assert(label_end(buf@, k as int));
        let c = choose|c: int| label_end(buf@, c);
        lemma_label_end_unique(buf@, c, k as int);
    }
    r
}

/// The label of a monitor's source, given what `describe_source` did and the
/// buffer it was handed. Where the entry point is absent or returned null the
/// label is `"UNKNOWN"`, whatever the buffer holds. Otherwise it is the text
/// before the buffer's first NUL; malformed UTF-8 is replaced, never rejected.
pub fn source_label(reply: SourceReply, buf: &[u8]) -> (r: String)
    ensures
        r@ == source_spec(reply, buf@),
        reply != SourceReply::Filled ==> r@ == UNKNOWN_SOURCE@,
{
    match reply {
        SourceReply::Filled => {
            let text = label_of(buf);
            decode_lossy(text.as_slice())
        },
        _ => UNKNOWN_SOURCE.to_string(),
    }
}

} // verus!
