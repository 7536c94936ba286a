//! The byte-level shape of everything the device says to the host.
use vstd::prelude::*;
use vstd::utf8::{encode_scalar, encode_utf8, is_ascii_chars, is_ascii_chars_encode_utf8};
use crate::command::{action_name, Action};
use crate::protocol::{STATUS_MAGIC_END, STATUS_MAGIC_START};

verus! {

/// The byte that ends every line written to the host.
pub const LINE_FEED: u8 = 0x0a;

/// The bytes sent for the character whose code point is `byte`: the byte
/// itself below `0x80`, and the two bytes of its UTF-8 form otherwise.
pub open spec fn char_bytes(byte: u8) -> Seq<u8> {
    encode_utf8(seq![byte as char])
}

/// The bytes sent for a line of text: the text, then a line feed.
pub open spec fn line_bytes(text: Seq<char>) -> Seq<u8> {
    encode_utf8(text).push(LINE_FEED)
}

/// How the state of a port is spelled in a status reply.
pub open spec fn status_text(asserted: bool) -> Seq<char> {
    if asserted {
        "on"@
    } else {
        "off"@
    }
}

/// A status reply: start marker, payload, end marker, carriage return and
/// line feed.
pub open spec fn status_reply(payload: Seq<char>) -> Seq<u8> {
    char_bytes(STATUS_MAGIC_START) + encode_utf8(payload) + char_bytes(STATUS_MAGIC_END)
        + line_bytes("\r"@)
}

/// The line that echoes a decoded command before it is carried out.
pub open spec fn ack_bytes(action: Action) -> Seq<u8> {
    encode_utf8("Cmd received: "@) + encode_utf8(action_name(action)) + line_bytes("\r"@)
}

/// The line that reports whether a command was carried out.
pub open spec fn outcome_bytes(succeeded: bool) -> Seq<u8> {
    if succeeded {
        line_bytes("    succeeded!\r"@)
    } else {
        line_bytes("    failed!\r"@)
    }
}

/// The bytes of a character with a byte-sized code point, spelled out.
pub proof fn lemma_char_bytes(byte: u8)
    ensures
        byte < 0x80 ==> char_bytes(byte) == seq![byte],
        byte >= 0x80 ==> char_bytes(byte) == seq![0xC0u8 | (byte >> 6), 0x80u8 | (byte & 0x3F)],
{
    let c: char = byte as char;
    let scalar: u32 = c as u32;
    assert(scalar == byte as u32);
    reveal_with_fuel(encode_utf8, 2);
    assert(seq![c].drop_first() =~= Seq::<char>::empty());
    assert(encode_utf8(seq![c]) =~= encode_scalar(scalar));
    if byte < 0x80 {
        assert((scalar & 0x7F) as u8 == byte) by (bit_vector)
            requires
                scalar == byte as u32,
                byte < 0x80,
        ;
    } else {
        assert((0xC0u8 | ((scalar >> 6) & 0x1F) as u8) == (0xC0u8 | (byte >> 6))) by (bit_vector)
            requires
                scalar == byte as u32,
        ;
        assert((0x80u8 | (scalar & 0x3F) as u8) == (0x80u8 | (byte & 0x3F))) by (bit_vector)
            requires
                scalar == byte as u32,
        ;
    }
}

/// The bytes of a text of ASCII characters: one byte per character, holding
/// its code.
pub open spec fn ascii_bytes(text: Seq<char>) -> Seq<u8> {
    Seq::new(text.len(), |i: int| text[i] as u8)
}

/// A text of ASCII characters is sent as its character codes.
pub proof fn lemma_ascii_text_bytes(text: Seq<char>)
    requires
        is_ascii_chars(text),
    ensures
        encode_utf8(text) == ascii_bytes(text),
{
    is_ascii_chars_encode_utf8(text);
    assert(encode_utf8(text) =~= ascii_bytes(text));
}

/// The status reply on the wire: `0x32`, the payload `on` or `off` in ASCII,
/// `0x23`, carriage return, line feed.
pub proof fn lemma_status_reply_bytes(asserted: bool)
    ensures
        status_reply(status_text(true)) == seq![0x32u8, 0x6f, 0x6e, 0x23, 0x0d, 0x0a],
        status_reply(status_text(false)) == seq![0x32u8, 0x6f, 0x66, 0x66, 0x23, 0x0d, 0x0a],
        status_reply(status_text(asserted)) == seq![STATUS_MAGIC_START] + ascii_bytes(
            status_text(asserted),
        ) + seq![STATUS_MAGIC_END, 0x0du8, LINE_FEED],
{
    reveal_strlit("on");
    reveal_strlit("off");
    reveal_strlit("\r");
    lemma_char_bytes(STATUS_MAGIC_START);
    lemma_char_bytes(STATUS_MAGIC_END);
    lemma_ascii_text_bytes("on"@);
    lemma_ascii_text_bytes("off"@);
    lemma_ascii_text_bytes("\r"@);
    assert(status_reply("on"@) =~= seq![0x32u8, 0x6f, 0x6e, 0x23, 0x0d, 0x0a]);
    assert(status_reply("off"@) =~= seq![0x32u8, 0x6f, 0x66, 0x66, 0x23, 0x0d, 0x0a]);
    assert(status_reply(status_text(asserted)) =~= seq![STATUS_MAGIC_START] + ascii_bytes(
        status_text(asserted),
    ) + seq![STATUS_MAGIC_END, 0x0du8, LINE_FEED]);
}

/// The echo of a command on the wire: `Cmd received: `, the name of the
/// action, carriage return, line feed, all in ASCII.
pub proof fn lemma_ack_bytes(action: Action)
    ensures
        ack_bytes(action) == ascii_bytes("Cmd received: "@ + action_name(action) + "\r\n"@),
{
    reveal_strlit("Cmd received: ");
    reveal_strlit("Off");
    reveal_strlit("On");
    reveal_strlit("Reboot");
    reveal_strlit("Status");
    reveal_strlit("\r");
    reveal_strlit("\r\n");
    lemma_ascii_text_bytes("Cmd received: "@);
    lemma_ascii_text_bytes(action_name(action));
    lemma_ascii_text_bytes("\r"@);
    assert(ack_bytes(action) =~= ascii_bytes(
        "Cmd received: "@ + action_name(action) + "\r\n"@,
    ));
}

/// The report of a command on the wire: four spaces, `succeeded!` or
/// `failed!`, carriage return, line feed, all in ASCII.
pub proof fn lemma_outcome_bytes()
    ensures
        outcome_bytes(true) == ascii_bytes("    succeeded!\r\n"@),
        outcome_bytes(false) == ascii_bytes("    failed!\r\n"@),
{
    reveal_strlit("    succeeded!\r");
    reveal_strlit("    failed!\r");
    reveal_strlit("    succeeded!\r\n");
    reveal_strlit("    failed!\r\n");
    lemma_ascii_text_bytes("    succeeded!\r"@);
    lemma_ascii_text_bytes("    failed!\r"@);
    assert(outcome_bytes(true) =~= ascii_bytes("    succeeded!\r\n"@));
    assert(outcome_bytes(false) =~= ascii_bytes("    failed!\r\n"@));
}

/// The spelling of a port state, as text.
pub fn status_str(asserted: bool) -> (r: &'static str)
    ensures
        r@ == status_text(asserted),
{
    if asserted {
        "on"
    } else {
        "off"
    }
}

} // verus!
