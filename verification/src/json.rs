//! JSON text of the values that a completion request carries.

use vstd::prelude::*;
use vstd::string::StringExecFns;

verus! {

/// `serde_json::Error`: the reason why the serialiser gave no text. Nothing
/// is known of what it holds.
#[verifier::external_type_specification]
#[verifier::external_body]
pub struct ExJsonError(serde_json::Error);

/// The JSON string literal that `serde_json::to_string` writes for `text`:
/// the text between double quotes, with the escapes that the serialiser
/// chooses. The literal depends on the text alone.
pub uninterp spec fn json_string_literal(text: Seq<char>) -> Seq<char>;

/// `serde_json::to_string` on a string slice. It always gives a text: for a
/// string the serialiser only appends bytes to a vector, which cannot fail.
/// That text is the string literal of `text`.
#[verifier::external_body]
pub(crate) fn string_literal(text: &str) -> (literal: Result<String, serde_json::Error>)
    ensures
        literal is Ok,
        literal matches Ok(l) ==> l@ == json_string_literal(text@),
{
    serde_json::to_string(text)
}

/// The JSON object with the two members `user_name` and `content`, in this
/// order, whose values are the given literals.
pub open spec fn turn_object(user_name_literal: Seq<char>, content_literal: Seq<char>) -> Seq<
    char,
> {
    "{\"user_name\":"@ + user_name_literal + ",\"content\":"@ + content_literal + "}"@
}

/// Writes the object of `turn_object` around two literals that are already
/// JSON.
pub fn frame_turn(user_name_literal: &str, content_literal: &str) -> (object: String)
    ensures
        object@ == turn_object(user_name_literal@, content_literal@),
{
    let mut object = String::from_str("{\"user_name\":");
    object.append(user_name_literal);
    object.append(",\"content\":");
    object.append(content_literal);
    object.append("}");
    object
}

} // verus!
