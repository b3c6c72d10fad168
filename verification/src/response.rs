//! Decoding of raw reply bytes and classification of decoded reply text.

use vstd::prelude::*;

verus! {

/// A device-reported fault, signalled by one of three exact reply markers.
#[derive(Clone, Copy, Debug, PartialEq, Eq, Structural)]
pub enum RadioError {
    /// `?;` reply: the command syntax was incorrect, or the command was not
    /// executed because of the transceiver's current status.
    SyntaxOrStatus,
    /// `E;` reply: the device reported a communication error.
    CommError,
    /// `O;` reply: receive data was sent but processing was not completed.
    ProcIncomplete,
}

/// The fault, if any, that a decoded reply reports.  Only the three exact
/// two-character markers classify as faults; every other text, including the
/// empty text and any longer text that merely begins with a marker, is data.
pub open spec fn spec_classify(reply: Seq<char>) -> Option<RadioError> {
    if reply == seq!['?', ';'] {
        Some(RadioError::SyntaxOrStatus)
    } else if reply == seq!['E', ';'] {
        Some(RadioError::CommError)
    } else if reply == seq!['O', ';'] {
        Some(RadioError::ProcIncomplete)
    } else {
        None
    }
}

/// Reports the device fault named by a reply, or `None` when the reply is
/// ordinary data.  Matching is exact: no prefix of a longer reply counts.
pub fn check_for_error(e: &str) -> (r: Option<RadioError>)
    ensures
        r == spec_classify(e@),
{
    let len = e.unicode_len();
    if len != 2 {
        proof {
            assert(seq!['?', ';'].len() == 2);
            assert(seq!['E', ';'].len() == 2);
            assert(seq!['O', ';'].len() == 2);
        }
        return None;
    }
    let c0 = e.get_char(0);
    let c1 = e.get_char(1);
    proof {
        assert(seq!['?', ';'][0] == '?' && seq!['?', ';'][1] == ';');
        assert(seq!['E', ';'][0] == 'E' && seq!['E', ';'][1] == ';');
        assert(seq!['O', ';'][0] == 'O' && seq!['O', ';'][1] == ';');
    }
    if c1 != ';' {
        return None;
    }
    if c0 == '?' {
        proof {
            assert(e@ =~= seq!['?', ';']);
        }
        Some(RadioError::SyntaxOrStatus)
    } else if c0 == 'E' {
        proof {
            assert(e@ =~= seq!['E', ';']);
        }
        Some(RadioError::CommError)
    } else if c0 == 'O' {
        proof {
            assert(e@ =~= seq!['O', ';']);
        }
        Some(RadioError::ProcIncomplete)
    } else {
        None
    }
}

/// The text that decoding a raw byte sequence yields: each byte that is a
/// valid ASCII code becomes the character with that code, and every other
/// byte is silently dropped.
pub open spec fn ascii_filter(bytes: Seq<u8>) -> Seq<char>
    decreases bytes.len(),
{
    if bytes.len() == 0 {
        Seq::empty()
    } else if bytes.first() < 128 {
        seq![bytes.first() as char] + ascii_filter(bytes.drop_first())
    } else {
        ascii_filter(bytes.drop_first())
    }
}

/// Appending one byte to the input extends the decoded text by that byte's
/// character exactly when the byte is valid ASCII.
pub proof fn lemma_ascii_filter_push(bytes: Seq<u8>, b: u8)
    ensures
        ascii_filter(bytes.push(b)) == ascii_filter(bytes) + (if b < 128 {
            seq![b as char]
        } else {
            Seq::<char>::empty()
        }),
    decreases bytes.len(),
{
    let tail = if b < 128 {
        seq![b as char]
    } else {
        Seq::<char>::empty()
    };
    if bytes.len() == 0 {
        assert(bytes.push(b).drop_first() =~= Seq::<u8>::empty());
        assert(bytes.push(b).first() == b);
        assert(ascii_filter(Seq::<u8>::empty()) == Seq::<char>::empty());
        assert(ascii_filter(bytes.push(b)) =~= tail);
        assert(ascii_filter(bytes) + tail =~= tail);
    } else {
        lemma_ascii_filter_push(bytes.drop_first(), b);
        assert(bytes.push(b).drop_first() =~= bytes.drop_first().push(b));
        assert(bytes.push(b).first() == bytes.first());
        if bytes.first() < 128 {
            assert(seq![bytes.first() as char] + (ascii_filter(bytes.drop_first()) + tail) =~= (
            seq![bytes.first() as char] + ascii_filter(bytes.drop_first())) + tail);
        }
    }
}

/// Relies on `String::push` of std: appends the given character to the end
/// of the string.
pub assume_specification[ String::push ](s: &mut String, ch: char)
    ensures
        final(s)@ == old(s)@.push(ch),
;

/// Decodes raw bytes read off the channel into text, keeping each valid
/// ASCII byte as its character and dropping every other byte.
pub fn decode_ascii(bytes: &[u8]) -> (r: String)
    ensures
        r@ == ascii_filter(bytes@),
{
    let mut out = String::new();
    let mut i: usize = 0;
    while i < bytes.len()
        invariant
            i <= bytes@.len(),
            out@ == ascii_filter(bytes@.take(i as int)),
        decreases bytes@.len() - i,
    {
        let b = bytes[i];
        proof {
            assert(bytes@.take(i as int).push(b) =~= bytes@.take(i as int + 1));
            lemma_ascii_filter_push(bytes@.take(i as int), b);
        }
        if b < 128 {
            out.push(b as char);
            proof {
                assert(ascii_filter(bytes@.take(i as int)) + seq![b as char] =~= ascii_filter(
                    bytes@.take(i as int),
                ).push(b as char));
            }
        } else {
            proof {
                assert(ascii_filter(bytes@.take(i as int)) + Seq::<char>::empty() =~= ascii_filter(
                    bytes@.take(i as int),
                ));
            }
        }
        i = i + 1;
    }
    proof {
        assert(bytes@.take(bytes@.len() as int) =~= bytes@);
    }
    out
}

} // verus!
