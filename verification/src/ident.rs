use vstd::prelude::*;
use crate::artifact::CodegenError;
use vstd::string::StringExecFns;

verus! {

/// What `syn::parse_str::<syn::Ident>` makes of a text: the identifier's
/// display form, or the display form of the parse error.
pub uninterp spec fn parsed_ident(text: Seq<char>) -> Result<Seq<char>, Seq<char>>;

/// `syn::parse_str::<syn::Ident>`, with the identifier and the error taken by
/// their display forms; the result is what `parsed_ident` names.
#[verifier::external_body]
fn syn_parse_ident(value: &str) -> (result: Result<String, String>)
    ensures
        match result {
            Ok(ident) => parsed_ident(value@) == Ok::<Seq<char>, Seq<char>>(ident@),
            Err(error) => parsed_ident(value@) == Err::<Seq<char>, Seq<char>>(error@),
        },
{
    match syn::parse_str::<syn::Ident>(value) {
        Ok(ident) => Ok(ident.to_string()),
        Err(error) => Err(error.to_string()),
    }
}

/// The message of a refused identifier.
pub open spec fn ident_error(value: Seq<char>, error: Seq<char>) -> Seq<char> {
    "invalid Rust identifier `"@ + value + "`: "@ + error
}

/// The outcome of `parse_ident`, over views.
pub open spec fn ident_result(value: Seq<char>) -> Result<Seq<char>, Seq<char>> {
    match parsed_ident(value) {
        Ok(ident) => Ok(ident),
        Err(error) => Err(ident_error(value, error)),
    }
}

/// Parses a Rust identifier, giving its text or the generator's error.
pub fn parse_ident(value: &str) -> (result: Result<String, CodegenError>)
    ensures
        match result {
            Ok(ident) => ident_result(value@) == Ok::<Seq<char>, Seq<char>>(ident@),
            Err(error) => ident_result(value@) == Err::<Seq<char>, Seq<char>>(error@),
        },
{
    match syn_parse_ident(value) {
        Ok(ident) => Ok(ident),
        Err(error) => {
            let mut message = String::from_str("invalid Rust identifier `");
            message.append(value);
            message.append("`: ");
            message.append(error.as_str());
            Err(CodegenError::new(message))
        },
    }
}

} // verus!
