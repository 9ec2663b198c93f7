//! Checks on text handed to the bridge as C strings.

use vstd::prelude::*;
use vstd::string::{StrSliceExecFns, StringExecFns};
use vstd::utf8::encode_utf8;

use crate::error::SpeechError;
use crate::text::{chars_of, decimal_digits, find_char, find_char_from, push_decimal};

verus! {

broadcast use vstd::string::group_string_axioms;

/// The message for an argument that holds a NUL character: the byte
/// position of the first one is reported, as `CString::new` does.
pub open spec fn nul_argument_text(context: Seq<char>, value: Seq<char>, first_nul: int) -> Seq<
    char,
> {
    context + " contains NUL byte: nul byte found in provided data at position: "@
        + decimal_digits((encode_utf8(value.take(first_nul)).len() as usize) as nat)
}

/// Checks that `value` can travel as a C string: it is returned as an owned
/// string when it holds no NUL character; otherwise the error names the
/// context and the byte position of the first NUL.
pub fn c_string_argument(value: &str, context: &str) -> (r: Result<String, SpeechError>)
    ensures
        match find_char_from(value@, '\0', 0) {
            None => r is Ok && r->Ok_0@ == value@,
            Some(i) => r is Err && (r->Err_0 matches SpeechError::InvalidArgument(m) && m@
                == nul_argument_text(context@, value@, i)),
        },
{
    let chars = chars_of(value);
    match find_char(&chars, '\0', 0) {
        None => Ok(value.to_owned()),
        Some(i) => {
            proof {
                crate::text::lemma_find_char_from(chars@, '\0', 0);
            }
            let before = value.substring_char(0, i);
            let position = before.len();
            let mut m = context.to_owned();
            m.append(" contains NUL byte: nul byte found in provided data at position: ");
            assert(position == encode_utf8(value@.take(i as int)).len() as usize);
            push_decimal(&mut m, position as u64);
            Err(SpeechError::InvalidArgument(m))
        },
    }
}

} // verus!
