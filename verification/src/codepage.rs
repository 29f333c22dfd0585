//! Turning the bytes that a shell wrote into text, by the console's codepage.

use crate::text::chained;
use vstd::prelude::*;

verus! {

/// The character encodings that shell output is decoded from.
#[derive(Debug, Clone, Copy, PartialEq, Eq)]
pub enum Codepage {
    /// UTF-8, codepage 65001.
    Utf8,
    /// IBM866, the Cyrillic console codepage 866.
    Ibm866,
    /// Windows-1251, codepage 1251.
    Windows1251,
}

/// The identifier of the UTF-8 codepage.
pub const CP_UTF8: u32 = 65001;

/// The identifier of the IBM866 codepage.
pub const CP_IBM866: u32 = 866;

/// The identifier of the Windows-1251 codepage.
pub const CP_WINDOWS_1251: u32 = 1251;

/// The encoding for a console codepage. Every identifier has one: those
/// without an encoding of their own are read as Windows-1251.
pub open spec fn codepage_for(identifier: u32) -> Codepage {
    if identifier == CP_UTF8 {
        Codepage::Utf8
    } else if identifier == CP_IBM866 {
        Codepage::Ibm866
    } else {
        Codepage::Windows1251
    }
}

/// The encoding for a console codepage.
pub fn select_codepage(identifier: u32) -> (codepage: Codepage)
    ensures
        codepage == codepage_for(identifier),
{
    if identifier == CP_UTF8 {
        Codepage::Utf8
    } else if identifier == CP_IBM866 {
        Codepage::Ibm866
    } else {
        Codepage::Windows1251
    }
}

/// The text that `bytes` decode to in `codepage`: what
/// `encoding_rs::Encoding::decode` gives for them, a byte order mark
/// honoured and removed, every malformed sequence replaced by U+FFFD.
pub uninterp spec fn decoded_text(codepage: Codepage, bytes: Seq<u8>) -> Seq<char>;

/// Whether the decoder can allocate its output buffer for `bytes`: three
/// bytes of output for each byte of input, and three more, within the
/// largest size that an allocation can have.
pub open spec fn decodable(bytes: Seq<u8>) -> bool {
    3 * bytes.len() + 3 <= isize::MAX
}

/// Calls `encoding_rs::Encoding::decode` on the encoding that stands for
/// `codepage` and keeps the text. The call never fails: it returns text for
/// every input whose output buffer it can allocate, which `requires` asks
/// for. Its result depends on the encoding and the bytes alone.
#[verifier::external_body]
fn decode_bytes(codepage: Codepage, bytes: &[u8]) -> (text: String)
    requires
        decodable(bytes@),
    ensures
        text@ == decoded_text(codepage, bytes@),
{
    let encoding = match codepage {
        Codepage::Utf8 => encoding_rs::UTF_8,
        Codepage::Ibm866 => encoding_rs::IBM866,
        Codepage::Windows1251 => encoding_rs::WINDOWS_1251,
    };
    encoding.decode(bytes).0.into_owned()
}

/// The text of `bytes` as written by a console with codepage `codepage`.
/// Decoding rejects nothing: bytes that mean nothing in the encoding come
/// out as replacement characters.
pub fn decode_with_codepage(bytes: &[u8], codepage: u32) -> (text: String)
    requires
        decodable(bytes@),
    ensures
        text@ == decoded_text(codepage_for(codepage), bytes@),
{
    decode_bytes(select_codepage(codepage), bytes)
}

/// The text of `bytes` as written by a console with codepage `codepage`,
/// for input of any length: the decoded text where the decoder can allocate
/// its output, and none where the input is too long for that. No input
/// makes it fail in any other way.
pub fn try_decode_with_codepage(bytes: &[u8], codepage: u32) -> (text: Option<String>)
    ensures
        match text {
            Some(decoded) => decodable(bytes@) && decoded@ == decoded_text(
                codepage_for(codepage),
                bytes@,
            ),
            None => !decodable(bytes@),
        },
{
    let limit: usize = (isize::MAX as usize - 3) / 3;
    if bytes.len() <= limit {
        Some(decode_with_codepage(bytes, codepage))
    } else {
        None
    }
}

/// The output of a finished command: what it wrote to standard output,
/// then what it wrote to standard error.
pub fn join_output(stdout: &str, stderr: &str) -> (text: String)
    ensures
        text@ == stdout@ + stderr@,
{
    chained(stdout, stderr)
}

/// The text that a finished command produced, from the bytes of its two
/// output streams.
pub fn handle_blocking_process(stdout: &[u8], stderr: &[u8], codepage: u32) -> (text: String)
    requires
        decodable(stdout@),
        decodable(stderr@),
    ensures
        text@ == decoded_text(codepage_for(codepage), stdout@) + decoded_text(
            codepage_for(codepage),
            stderr@,
        ),
{
    let out = decode_with_codepage(stdout, codepage);
    let err = decode_with_codepage(stderr, codepage);
    join_output(out.as_str(), err.as_str())
}

} // verus!
