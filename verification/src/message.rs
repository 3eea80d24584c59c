//! Construction of the per-file user message of the request body: the file
//! is transmitted base64-encoded, together with its name and language
//! label; an empty file gets a fixed notice instead.

use vstd::prelude::*;

verus! {

/// The padded standard base64 encoding of a byte sequence.
pub uninterp spec fn base64_of(b: Seq<u8>) -> Seq<char>;

/// Relies on base64's `STANDARD` engine (`Engine::encode`): the padded
/// standard base64 encoding of the bytes, four characters for every started
/// three bytes, a function of the bytes alone.
#[verifier::external_body]
fn encode_base64(data: &Vec<u8>) -> (r: String)
    requires
        ((data@.len() + 2) / 3) * 4 <= usize::MAX,
    ensures
        r@ == base64_of(data@),
        r@.len() == ((data@.len() + 2) / 3) * 4,
{
    base64::Engine::encode(&base64::engine::general_purpose::STANDARD, data)
}

/// The user message for one input file: its name and language and the
/// base64-encoded content, or a fixed empty-file notice.
pub open spec fn user_message_spec(
    file_name: Seq<char>,
    language: Seq<char>,
    data: Seq<u8>,
) -> Seq<char> {
    if data.len() == 0 {
        "File `"@ + file_name + "` currently holds 0 bytes.\nLanguage of the file: "@ + language
            + "\nFollow the empty-file output rules strictly:\nFile name: "@ + file_name
            + "\nLanguage of the file: "@ + language
            + "\nPurpose of the file: the file is empty, so no purpose can be read from it.\n"@
    } else {
        "File `"@ + file_name + "` is transmitted base64-encoded.\nLanguage of the file: "@
            + language + "\nThe encoded byte stream follows:\n\n"@ + base64_of(data)
    }
}

/// The user message for one input file.
pub fn build_user_message(file_name: &str, language: &str, data: &Vec<u8>) -> (r: String)
    requires
        ((data@.len() + 2) / 3) * 4 <= usize::MAX,
    ensures
        r@ == user_message_spec(file_name@, language@, data@),
{
    let mut out = String::new();
    if data.len() == 0 {
        out.append("File `");
        out.append(file_name);
        out.append("` currently holds 0 bytes.\nLanguage of the file: ");
        out.append(language);
        out.append("\nFollow the empty-file output rules strictly:\nFile name: ");
        out.append(file_name);
        out.append("\nLanguage of the file: ");
        out.append(language);
        out.append(
            "\nPurpose of the file: the file is empty, so no purpose can be read from it.\n",
        );
    } else {
        let encoded = encode_base64(data);
        out.append("File `");
        out.append(file_name);
        out.append("` is transmitted base64-encoded.\nLanguage of the file: ");
        out.append(language);
        out.append("\nThe encoded byte stream follows:\n\n");
        out.append(encoded.as_str());
    }
    out
}

} // verus!
