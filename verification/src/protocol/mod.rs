//! Peripheral protocols and related support.

pub mod laws;
pub mod line;
pub mod manager;
pub mod slot;
pub mod ptm;
pub mod via;
pub mod wire;

use vstd::prelude::*;

verus! {

/// How protocol messages are put on the wire.
#[derive(Debug, Clone, Copy, PartialEq, Eq, Structural)]
pub enum ProtocolMessageEncoding {
    Ascii,
    Binary,
}

/// `c` with an ASCII upper case letter replaced by its lower case counterpart.
pub open spec fn ascii_lower(c: char) -> char {
    if 'A' <= c && c <= 'Z' {
        ((c as int) + 32) as char
    } else {
        c
    }
}

/// Whether `text` equals `lower` once its ASCII upper case letters are made lower case.
pub open spec fn equals_ignoring_case(text: Seq<char>, lower: Seq<char>) -> bool {
    text.map_values(|c: char| ascii_lower(c)) == lower
}

/// `b` with an ASCII lower case letter replaced by its upper case counterpart.
pub open spec fn upper(b: u8) -> u8 {
    if 0x61 <= b <= 0x7a {
        (b - 32) as u8
    } else {
        b
    }
}

/// Makes an ASCII lower case letter upper case.
pub fn to_upper(b: u8) -> (u: u8)
    ensures
        u == upper(b),
{
    if 0x61 <= b && b <= 0x7a {
        b - 32
    } else {
        b
    }
}

fn matches_ignoring_case(text: &str, lower: &str) -> (same: bool)
    ensures
        same == equals_ignoring_case(text@, lower@),
{
    let n: usize = text.unicode_len();
    if n != lower.unicode_len() {
        return false;
    }
    let mut i: usize = 0;
    while i < n
        invariant
            n == text@.len() == lower@.len(),
            i <= n,
            forall|k: int| 0 <= k < i ==> ascii_lower(#[trigger] text@[k]) == lower@[k],
        decreases n - i,
    {
        let c = text.get_char(i);
        let wanted = lower.get_char(i);
        let folded = if 'A' <= c && c <= 'Z' {
            (c as u8 + 32) as char
        } else {
            c
        };
        if folded != wanted {
            assert(text@.map_values(|c: char| ascii_lower(c))[i as int] != lower@[i as int]);
            return false;
        }
        i += 1;
    }
    assert(text@.map_values(|c: char| ascii_lower(c)) =~= lower@);
    true
}

impl ProtocolMessageEncoding {
    /// The name of the encoding.
    pub open spec fn text(self) -> Seq<char> {
        match self {
            ProtocolMessageEncoding::Ascii => "ASCII"@,
            ProtocolMessageEncoding::Binary => "Binary"@,
        }
    }

    /// The encoding that `text` names, whatever the case of its letters.
    pub open spec fn named(text: Seq<char>) -> Option<Self> {
        if equals_ignoring_case(text, "ascii"@) {
            Some(ProtocolMessageEncoding::Ascii)
        } else if equals_ignoring_case(text, "binary"@) {
            Some(ProtocolMessageEncoding::Binary)
        } else {
            None
        }
    }

    /// What is said of a text that names no encoding.
    pub open spec fn unknown(text: Seq<char>) -> Seq<char> {
        "Invalid transport message encoding '"@ + text + "'; try '"@
            + ProtocolMessageEncoding::Ascii.text() + "' or '"@
            + ProtocolMessageEncoding::Binary.text() + "'"@
    }

    /// The name of the encoding.
    pub fn to_string(&self) -> (s: String)
        ensures
            s@ == self.text(),
    {
        match self {
            ProtocolMessageEncoding::Ascii => String::from_str("ASCII"),
            ProtocolMessageEncoding::Binary => String::from_str("Binary"),
        }
    }

    /// Finds the encoding that `s` names, ignoring case.
    pub fn from_str(s: &str) -> (r: Result<Self, String>)
        ensures
            match Self::named(s@) {
                Some(encoding) => r == Ok::<Self, String>(encoding),
                None => r matches Err(message) && message@ == Self::unknown(s@),
            },
    {
        if matches_ignoring_case(s, "ascii") {
            Ok(ProtocolMessageEncoding::Ascii)
        } else if matches_ignoring_case(s, "binary") {
            Ok(ProtocolMessageEncoding::Binary)
        } else {
            let mut message = String::from_str("Invalid transport message encoding '");
            message.append(s);
            message.append("'; try '");
            message.append("ASCII");
            message.append("' or '");
            message.append("Binary");
            message.append("'");
            Err(message)
        }
    }

    /// Finds the encoding that `s` names, ignoring case.
    pub fn try_from(s: String) -> (r: Result<Self, String>)
        ensures
            match Self::named(s@) {
                Some(encoding) => r == Ok::<Self, String>(encoding),
                None => r matches Err(message) && message@ == Self::unknown(s@),
            },
    {
        Self::from_str(s.as_str())
    }
}

/// An encoding is found under its own name.
pub proof fn encoding_name_round_trips(encoding: ProtocolMessageEncoding)
    ensures
        ProtocolMessageEncoding::named(encoding.text()) == Some(encoding),
{
    reveal_strlit("ASCII");
    reveal_strlit("Binary");
    reveal_strlit("ascii");
    reveal_strlit("binary");
    let lower = encoding.text().map_values(|c: char| ascii_lower(c));
    match encoding {
        ProtocolMessageEncoding::Ascii => {
            assert(lower =~= "ascii"@);
        },
        ProtocolMessageEncoding::Binary => {
            assert(lower =~= "binary"@);
            assert(lower[0] != "ascii"@[0]);
        },
    }
}

/// A message protocol encoder.
///
/// The spec functions are what an encoder does, and a verified encoder defines them. Their defaults
/// are there so that an encoder can also be written in ordinary Rust. Each default is one fixed
/// unknown value: an encoder that keeps it claims to do what that value says, and nothing checks
/// the claim. What is proved of the library holds for such an encoder only as far as it is true.
pub trait ProtocolMessageEncoder<T>: Send + Sized {
    /// What holds of every encoder in use.
    open spec fn wf(&self) -> bool {
        true
    }

    /// A new encoder for the given encoding.
    open spec fn initial(encoding: ProtocolMessageEncoding) -> Self {
        arbitrary()
    }

    /// The encoded form of `message`.
    open spec fn encoded(&self, message: T) -> Seq<u8> {
        arbitrary()
    }

    /// The encoder once it has encoded `message`.
    open spec fn after(&self, message: T) -> Self {
        arbitrary()
    }

    /// Creates an encoder for the given encoding.
    fn for_encoding(encoding: ProtocolMessageEncoding) -> (e: Self)
        ensures
            e.wf(),
            e == Self::initial(encoding),
    ;

    /// Encodes `message`, appending the encoded form to `out`.
    fn encode(&mut self, message: &T, out: &mut Vec<u8>)
        requires
            old(self).wf(),
        ensures
            final(self).wf(),
            *final(self) == old(self).after(*message),
            final(out)@ == old(out)@ + old(self).encoded(*message),
    ;
}

/// A message protocol decoder.
///
/// The spec functions are what a decoder does, and a verified decoder defines them. Their defaults
/// are there so that a decoder can also be written in ordinary Rust. Each default is one fixed
/// unknown value: a decoder that keeps it claims to do what that value says, and nothing checks
/// the claim. What is proved of the library holds for such a decoder only as far as it is true.
pub trait ProtocolMessageDecoder<T>: Send + Sized {
    /// What holds of every decoder in use.
    open spec fn wf(&self) -> bool {
        true
    }

    /// A new decoder for the given encoding.
    open spec fn initial(encoding: ProtocolMessageEncoding) -> Self {
        arbitrary()
    }

    /// The decoder once it was fed `b`.
    open spec fn after(&self, b: u8) -> Self {
        arbitrary()
    }

    /// The message that `b` completes, if it completes one.
    open spec fn decoded(&self, b: u8) -> Option<T> {
        arbitrary()
    }

    /// Creates a decoder for the given encoding.
    fn for_encoding(encoding: ProtocolMessageEncoding) -> (d: Self)
        ensures
            d.wf(),
            d == Self::initial(encoding),
    ;

    /// Feeds the byte `b` received from the transport into the decoder's state machine.
    /// Returns `Some(T)` if the state machine outputs a valid message, otherwise `None`.
    fn feed(&mut self, b: u8) -> (message: Option<T>)
        requires
            old(self).wf(),
        ensures
            final(self).wf(),
            *final(self) == old(self).after(b),
            message == old(self).decoded(b),
    ;
}

/// A decoder once it was fed all of `bytes`.
pub open spec fn after_bytes<T, D: ProtocolMessageDecoder<T>>(decoder: D, bytes: Seq<u8>) -> D
    decreases bytes.len(),
{
    if bytes.len() == 0 {
        decoder
    } else {
        after_bytes::<T, D>(decoder, bytes.drop_last()).after(bytes.last())
    }
}

/// The messages that a decoder puts out while it is fed `bytes`, in order.
pub open spec fn messages_in<T, D: ProtocolMessageDecoder<T>>(decoder: D, bytes: Seq<u8>) -> Seq<T>
    decreases bytes.len(),
{
    if bytes.len() == 0 {
        Seq::empty()
    } else {
        let before = messages_in::<T, D>(decoder, bytes.drop_last());
        match after_bytes::<T, D>(decoder, bytes.drop_last()).decoded(bytes.last()) {
            Some(message) => before.push(message),
            None => before,
        }
    }
}

/// Feeding `first` and then `second` is feeding `first + second`.
pub proof fn feeding_in_parts<T, D: ProtocolMessageDecoder<T>>(
    decoder: D,
    first: Seq<u8>,
    second: Seq<u8>,
)
    ensures
        after_bytes::<T, D>(decoder, first + second) == after_bytes::<T, D>(
            after_bytes::<T, D>(decoder, first),
            second,
        ),
        messages_in::<T, D>(decoder, first + second) == messages_in::<T, D>(decoder, first)
            + messages_in::<T, D>(after_bytes::<T, D>(decoder, first), second),
    decreases second.len(),
{
    if second.len() == 0 {
        assert(first + second =~= first);
        assert(messages_in::<T, D>(decoder, first) + Seq::<T>::empty() =~= messages_in::<T, D>(
            decoder,
            first,
        ));
    } else {
        let all = first + second;
        assert(all.drop_last() =~= first + second.drop_last());
        feeding_in_parts::<T, D>(decoder, first, second.drop_last());
        let middle = after_bytes::<T, D>(decoder, first);
        assert(messages_in::<T, D>(decoder, all) =~= messages_in::<T, D>(decoder, first)
            + messages_in::<T, D>(middle, second));
    }
}

} // verus!
