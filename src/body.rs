use vstd::prelude::*;

verus! {

/// The JSON string literal that serde_json writes for `s`: quotes and escapes included.
pub uninterp spec fn json_string_of(s: Seq<char>) -> Seq<char>;

/// Relies on serde_json's `Display` for `Value::String`: the compact JSON text of
/// the string, which depends on its characters alone.
#[verifier::external_body]
fn json_string(s: &str) -> (r: String)
    ensures
        r@ == json_string_of(s@),
{
    serde_json::Value::from(s).to_string()
}

/// The JSON object sent to every endpoint: the image under `image_url`, then
/// the endpoint's own field `key` with the string `value`.
pub open spec fn request_body(image: Seq<char>, key: Seq<char>, value: Seq<char>) -> Seq<char> {
    "{"@ + json_string_of("image_url"@) + ":"@ + json_string_of(image) + ","@ + json_string_of(key)
        + ":"@ + json_string_of(value) + "}"@
}

/// Writes the JSON object `{"image_url": image, key: value}`.
pub fn build_body(image: &str, key: &str, value: &str) -> (r: String)
    ensures
        r@ == request_body(image@, key@, value@),
{
    let mut out = String::from_str("{");
    let image_key = json_string("image_url");
    out.append(image_key.as_str());
    out.append(":");
    let image_text = json_string(image);
    out.append(image_text.as_str());
    out.append(",");
    let key_text = json_string(key);
    out.append(key_text.as_str());
    out.append(":");
    let value_text = json_string(value);
    out.append(value_text.as_str());
    out.append("}");
    out
}

} // verus!
