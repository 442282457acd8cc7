use vstd::prelude::*;
use vstd::string::*;

use crate::errors::Error;
use crate::errors::ErrorView;

verus! {

/// The tri-state boolean token used throughout the upstream payload:
/// `""` and `"0"` mean false, `"1"` means true, and any other token is
/// invalid (`None`).
pub open spec fn spec_bool_token(s: Seq<char>) -> Option<bool> {
    if s.len() == 0 || (s.len() == 1 && s[0] == '0') {
        Some(false)
    } else if s.len() == 1 && s[0] == '1' {
        Some(true)
    } else {
        None
    }
}

/// Decodes one boolean token. An invalid token is a hard error carrying the
/// token itself, never a silent default.
pub fn decode_bool_token(text: &String) -> (r: Result<bool, Error>)
    ensures
        match spec_bool_token(text@) {
            Some(b) => r == Ok::<bool, Error>(b),
            None => (r matches Err(e) && e@ == ErrorView::InvalidToken(text@)),
        },
{
    proof {
        reveal_strlit("0");
        reveal_strlit("1");
    }
    if text.as_str().is_empty() || *text == String::from_str("0") {
        Ok(false)
    } else if *text == String::from_str("1") {
        Ok(true)
    } else {
        proof {
            if text@.len() == 1 && text@[0] == '0' {
                assert(text@ =~= "0"@);
            }
            if text@.len() == 1 && text@[0] == '1' {
                assert(text@ =~= "1"@);
            }
        }
        Err(Error::InvalidToken(text.clone()))
    }
}

} // verus!
