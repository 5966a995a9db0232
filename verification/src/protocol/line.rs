//! Lines of short ASCII words, as the ASCII protocols send them.

use crate::protocol;
use crate::protocol::ProtocolMessageDecoder;
use vstd::prelude::*;

verus! {

/// A line that has reached this length is ended before the next word.
pub const LINE_LIMIT: u8 = 72;

/// Length of the longest word, its trailing space counted.
pub const WORD_LIMIT: u8 = 5;

/// The bytes that put `word` on a line that already holds `length` bytes.
pub open spec fn word_bytes(length: u8, word: Seq<u8>) -> Seq<u8> {
    if length >= LINE_LIMIT {
        seq![0x0du8, 0x0au8] + word
    } else {
        word
    }
}

/// The length of the line once `word` is on it.
pub open spec fn word_length(length: u8, word: Seq<u8>) -> u8 {
    if length >= LINE_LIMIT {
        word.len() as u8
    } else {
        (length + word.len()) as u8
    }
}

/// The bytes that put `words` on a line that already holds `length` bytes.
pub open spec fn line_bytes(length: u8, words: Seq<Seq<u8>>) -> Seq<u8>
    decreases words.len(),
{
    if words.len() == 0 {
        Seq::empty()
    } else {
        line_bytes(length, words.drop_last()) + word_bytes(
            line_length(length, words.drop_last()),
            words.last(),
        )
    }
}

/// The length of the line once `words` are on it.
pub open spec fn line_length(length: u8, words: Seq<Seq<u8>>) -> u8
    decreases words.len(),
{
    if words.len() == 0 {
        length
    } else {
        word_length(line_length(length, words.drop_last()), words.last())
    }
}

/// What holds of the length of every line between two words.
pub open spec fn line_ok(length: u8) -> bool {
    length < LINE_LIMIT + WORD_LIMIT
}

/// One more word after `words`.
pub proof fn line_with_word(length: u8, words: Seq<Seq<u8>>, word: Seq<u8>)
    ensures
        line_bytes(length, words.push(word)) == line_bytes(length, words) + word_bytes(
            line_length(length, words),
            word,
        ),
        line_length(length, words.push(word)) == word_length(line_length(length, words), word),
{
    assert(words.push(word).drop_last() =~= words);
}

/// Putting `first` and then `second` on a line is putting `first + second` on it.
pub proof fn line_in_parts(length: u8, first: Seq<Seq<u8>>, second: Seq<Seq<u8>>)
    ensures
        line_bytes(length, first + second) == line_bytes(length, first) + line_bytes(
            line_length(length, first),
            second,
        ),
        line_length(length, first + second) == line_length(line_length(length, first), second),
    decreases second.len(),
{
    if second.len() == 0 {
        assert(first + second =~= first);
        assert(line_bytes(length, first) + Seq::<u8>::empty() =~= line_bytes(length, first));
    } else {
        line_in_parts(length, first, second.drop_last());
        assert((first + second).drop_last() =~= first + second.drop_last());
        assert(line_bytes(length, first + second) =~= line_bytes(length, first) + line_bytes(
            line_length(length, first),
            second,
        ));
    }
}

/// Puts `word` on the line that holds `length` bytes and returns the line's new length.
pub fn put_word(length: u8, word: &[u8], out: &mut Vec<u8>) -> (new_length: u8)
    requires
        line_ok(length),
        word@.len() <= WORD_LIMIT,
    ensures
        final(out)@ == old(out)@ + word_bytes(length, word@),
        new_length == word_length(length, word@),
        line_ok(new_length),
{
    let mut start: u8 = length;
    if start >= LINE_LIMIT {
        out.push(0x0d);
        out.push(0x0a);
        start = 0;
    }
    out.extend_from_slice(word);
    assert(out@ =~= old(out)@ + word_bytes(length, word@));
    start + word.len() as u8
}

/// Fed the bytes of `word`, wherever on a line, the decoder `idle` puts out `message` and is back
/// where it was.
pub open spec fn word_means<T, D: ProtocolMessageDecoder<T>>(
    idle: D,
    word: Seq<u8>,
    message: T,
) -> bool {
    forall|length: u8|
        {
            let bytes = #[trigger] word_bytes(length, word);
            &&& protocol::after_bytes::<T, D>(idle, bytes) == idle
            &&& protocol::messages_in::<T, D>(idle, bytes) == seq![message]
        }
}

/// A decoder that ignores line ends makes the same of a word wherever it stands on a line.
pub proof fn word_means_anywhere<T, D: ProtocolMessageDecoder<T>>(
    idle: D,
    word: Seq<u8>,
    message: T,
)
    requires
        idle.after(0x0d) == idle,
        idle.after(0x0a) == idle,
        idle.decoded(0x0d) is None,
        idle.decoded(0x0a) is None,
        protocol::after_bytes::<T, D>(idle, word) == idle,
        protocol::messages_in::<T, D>(idle, word) == seq![message],
    ensures
        word_means::<T, D>(idle, word, message),
{
    reveal_with_fuel(protocol::after_bytes, 3);
    reveal_with_fuel(protocol::messages_in, 3);
    protocol::feeding_in_parts::<T, D>(idle, seq![0x0du8, 0x0au8], word);
    assert(Seq::<T>::empty() + seq![message] =~= seq![message]);
}

/// Words with a meaning each, put on a line, decode to their meanings in order.
pub proof fn line_means<T, D: ProtocolMessageDecoder<T>>(
    idle: D,
    length: u8,
    words: Seq<Seq<u8>>,
    messages: Seq<T>,
)
    requires
        words.len() == messages.len(),
        forall|i: int|
            0 <= i < words.len() ==> word_means::<T, D>(idle, #[trigger] words[i], messages[i]),
    ensures
        protocol::after_bytes::<T, D>(idle, line_bytes(length, words)) == idle,
        protocol::messages_in::<T, D>(idle, line_bytes(length, words)) == messages,
    decreases words.len(),
{
    if words.len() == 0 {
        assert(messages =~= Seq::<T>::empty());
    } else {
        let last = (words.len() - 1) as int;
        line_means::<T, D>(idle, length, words.drop_last(), messages.drop_last());
        assert(word_means::<T, D>(idle, words[last], messages[last]));
        protocol::feeding_in_parts::<T, D>(
            idle,
            line_bytes(length, words.drop_last()),
            word_bytes(line_length(length, words.drop_last()), words.last()),
        );
        assert(messages.drop_last() + seq![messages.last()] =~= messages);
    }
}

} // verus!
