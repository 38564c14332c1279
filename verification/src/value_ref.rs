use vstd::prelude::*;
use vstd::utf8::{decode_utf8, decode_utf8_encode_utf8, encode_utf8, valid_utf8};

verus! {

/// The outcome of a conversion done by the engine: the converted value, unless
/// the engine raised an exception while converting.
pub fn unless_exception<T>(value: T, exception_raised: bool) -> (r: Option<T>)
    ensures
        r == (if exception_raised {
            None
        } else {
            Some(value)
        }),
{
    if exception_raised {
        None
    } else {
        Some(value)
    }
}

/// The bytes of text in a buffer that the engine filled with a NUL-terminated
/// UTF-8 string, `written` being the number of bytes it wrote, terminator included.
pub open spec fn c_buffer_text(buffer: Seq<u8>, written: nat) -> Seq<u8> {
    buffer.take(written - 1)
}

/// `String::from_utf8`: the string whose UTF-8 encoding is `bytes`, or `None`
/// when `bytes` is not valid UTF-8 (as `vstd::utf8::valid_utf8` defines it).
#[verifier::external_body]
fn string_from_utf8(bytes: Vec<u8>) -> (r: Option<String>)
    ensures
        r is Some <==> valid_utf8(bytes@),
        r matches Some(s) ==> s@ == decode_utf8(bytes@),
{
    match String::from_utf8(bytes) {
        Ok(s) => Some(s),
        Err(_) => None,
    }
}

/// The outcome of converting a value to a string: `None` when the engine
/// raised an exception or when the text is not valid UTF-8, else the text that
/// the engine wrote into `buffer` (`written` bytes, the terminator included).
pub fn string_result(exception_raised: bool, buffer: Vec<u8>, written: usize) -> (r: Option<String>)
    requires
        !exception_raised ==> 1 <= written <= buffer.len(),
    ensures
        exception_raised ==> r is None,
        !exception_raised ==> (r is Some <==> valid_utf8(c_buffer_text(buffer@, written as nat))),
        r matches Some(s) ==> s@ == decode_utf8(c_buffer_text(buffer@, written as nat)),
        !exception_raised ==> (r is Some <==> valid_utf8(buffer@.subrange(0, written - 1))),
        r matches Some(s) ==> encode_utf8(s@) == buffer@.subrange(0, written - 1),
{
    if exception_raised {
        return None;
    }
    let mut text = buffer;
    text.truncate(written - 1);
    assert(text@ =~= c_buffer_text(buffer@, written as nat));
    assert(text@ =~= buffer@.subrange(0, written - 1));
    let r = string_from_utf8(text);
    proof {
        if r is Some {
            decode_utf8_encode_utf8(text@);
        }
    }
    r
}

/// The text read back from the engine's buffer is every byte it wrote but the
/// terminator, in order: as many bytes as were written, less one, each the
/// byte at the same place in the buffer.
pub proof fn law_c_buffer_text_is_written_prefix(buffer: Seq<u8>, written: nat)
    requires
        1 <= written <= buffer.len(),
    ensures
        c_buffer_text(buffer, written).len() == written - 1,
        forall|i: int| 0 <= i < written - 1 ==> #[trigger] c_buffer_text(buffer, written)[i] == buffer[i],
{
}

} // verus!
