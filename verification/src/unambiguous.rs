//! The encoding is unambiguous: a frame is the frame of one message only.
//!
//! The proof reads a frame from the left, as a decoder would. Every escaped
//! character begins either with itself or with a backslash, and what follows
//! the backslash tells which character it was; so a text can be told from
//! its JSON string, and the quote that ends the string is found without
//! looking ahead.

use vstd::prelude::*;
use crate::codec::{frame_text, json_optional, payload_text};
use crate::json::{escaped, escaped_char, hex_digit, json_string};
use crate::laws::same_kind;
use crate::protocol::{MessageView, wire_tag};

verus! {

/// What stands before a text can be taken away on both sides of an
/// equation.
proof fn lemma_cancel_prefix(prefix: Seq<char>, x: Seq<char>, y: Seq<char>)
    requires
        prefix + x == prefix + y,
    ensures
        x == y,
{
    let n = prefix.len() as int;
    assert(x =~= (prefix + x).subrange(n, n + x.len()));
    assert((prefix + x).len() == (prefix + y).len());
    assert(y =~= (prefix + y).subrange(n, n + y.len()));
}

/// Escaping works character by character: the escaped form of two texts in
/// a row is their escaped forms in a row.
proof fn lemma_escaped_concat(a: Seq<char>, b: Seq<char>)
    ensures
        escaped(a + b) == escaped(a) + escaped(b),
    decreases b.len(),
{
    if b.len() == 0 {
        assert(a + b =~= a);
        assert(escaped(a) + escaped(b) =~= escaped(a));
    } else {
        assert((a + b).drop_last() =~= a + b.drop_last());
        lemma_escaped_concat(a, b.drop_last());
        assert(escaped(a) + escaped(b.drop_last()) + escaped_char(b.last()) =~= escaped(a) + (
        escaped(b.drop_last()) + escaped_char(b.last())));
    }
}

/// The escaped form of a text begins with that of its first character.
proof fn lemma_escaped_first(text: Seq<char>)
    requires
        text.len() > 0,
    ensures
        escaped(text) == escaped_char(text[0]) + escaped(text.drop_first()),
{
    let head = seq![text[0]];
    assert(text =~= head + text.drop_first());
    lemma_escaped_concat(head, text.drop_first());
    assert(head.drop_last() =~= Seq::<char>::empty());
    assert(escaped(head) =~= escaped_char(text[0])) by {
        reveal_with_fuel(escaped, 2);
    }
}

/// Different numbers below sixteen have different digits.
proof fn lemma_hex_digit_unique(m: int, n: int)
    requires
        0 <= m < 16,
        0 <= n < 16,
        hex_digit(m) == hex_digit(n),
    ensures
        m == n,
{
    let digits = seq![
        '0',
        '1',
        '2',
        '3',
        '4',
        '5',
        '6',
        '7',
        '8',
        '9',
        'a',
        'b',
        'c',
        'd',
        'e',
        'f',
    ];
    assert(forall|i: int, j: int| 0 <= i < 16 && 0 <= j < 16 && digits[i] == digits[j] ==> i == j);
}

/// An escaped character never begins with a quote.
proof fn lemma_escaped_char_is_no_quote(c: char)
    ensures
        escaped_char(c).len() > 0,
        escaped_char(c)[0] != '"',
{
}

/// An escaped character can be told from what follows it: where two of
/// them, each followed by some text, read the same, they are the same
/// character followed by the same text.
proof fn lemma_escaped_char_unique(c: char, d: char, x: Seq<char>, y: Seq<char>)
    requires
        escaped_char(c) + x == escaped_char(d) + y,
    ensures
        c == d,
        x == y,
{
    let left = escaped_char(c) + x;
    let right = escaped_char(d) + y;
    let ec = escaped_char(c);
    let ed = escaped_char(d);
    assert(left[0] == ec[0]);
    assert(right[0] == ed[0]);
    if ec[0] == '\\' && ec.len() >= 2 {
        assert(ed[0] == '\\');
        assert(ed.len() >= 2);
        assert(left[1] == ec[1]);
        assert(right[1] == ed[1]);
        if ec[1] == 'u' {
            assert(ec.len() == 6 && ed.len() == 6);
            assert(left[4] == ec[4] && right[4] == ed[4]);
            assert(left[5] == ec[5] && right[5] == ed[5]);
            lemma_hex_digit_unique((c as int) / 16, (d as int) / 16);
            lemma_hex_digit_unique((c as int) % 16, (d as int) % 16);
            assert(c as int == d as int);
        }
    }
    assert(c == d);
    lemma_cancel_prefix(ec, x, y);
}

/// A JSON string can be told from what follows it: where two texts, each
/// escaped, closed by a quote and followed by some text, read the same, they
/// are the same text followed by the same text.
proof fn lemma_escaped_unique(a: Seq<char>, b: Seq<char>, x: Seq<char>, y: Seq<char>)
    requires
        escaped(a) + (seq!['"'] + x) == escaped(b) + (seq!['"'] + y),
    ensures
        a == b,
        x == y,
    decreases a.len(),
{
    let quote = seq!['"'];
    if a.len() == 0 && b.len() == 0 {
        assert(escaped(a) =~= Seq::<char>::empty());
        assert(escaped(a) + (quote + x) =~= quote + x);
        assert(escaped(b) + (quote + y) =~= quote + y);
        lemma_cancel_prefix(quote, x, y);
        assert(a =~= b);
    } else if a.len() == 0 {
        lemma_escaped_first(b);
        lemma_escaped_char_is_no_quote(b[0]);
        assert(escaped(a) + (quote + x) =~= quote + x);
        assert((quote + x)[0] == '"');
        assert((escaped(b) + (quote + y))[0] == escaped_char(b[0])[0]);
        assert(false);
    } else if b.len() == 0 {
        lemma_escaped_first(a);
        lemma_escaped_char_is_no_quote(a[0]);
        assert(escaped(b) + (quote + y) =~= quote + y);
        assert((quote + y)[0] == '"');
        assert((escaped(a) + (quote + x))[0] == escaped_char(a[0])[0]);
        assert(false);
    } else {
        lemma_escaped_first(a);
        lemma_escaped_first(b);
        let rest_a = escaped(a.drop_first()) + (quote + x);
        let rest_b = escaped(b.drop_first()) + (quote + y);
        assert(escaped(a) + (quote + x) =~= escaped_char(a[0]) + rest_a);
        assert(escaped(b) + (quote + y) =~= escaped_char(b[0]) + rest_b);
        lemma_escaped_char_unique(a[0], b[0], rest_a, rest_b);
        lemma_escaped_unique(a.drop_first(), b.drop_first(), x, y);
        assert(a =~= seq![a[0]] + a.drop_first());
        assert(b =~= seq![b[0]] + b.drop_first());
    }
}

/// A JSON string can be told from what follows it.
proof fn lemma_json_string_unique(a: Seq<char>, b: Seq<char>, x: Seq<char>, y: Seq<char>)
    requires
        json_string(a) + x == json_string(b) + y,
    ensures
        a == b,
        x == y,
{
    let quote = seq!['"'];
    assert(json_string(a) + x =~= quote + (escaped(a) + (quote + x)));
    assert(json_string(b) + y =~= quote + (escaped(b) + (quote + y)));
    lemma_cancel_prefix(quote, escaped(a) + (quote + x), escaped(b) + (quote + y));
    lemma_escaped_unique(a, b, x, y);
}

/// The JSON text of a field that may be missing can be told from what
/// follows it, and `null` from every string.
proof fn lemma_json_optional_unique(
    a: Option<Seq<char>>,
    b: Option<Seq<char>>,
    x: Seq<char>,
    y: Seq<char>,
)
    requires
        json_optional(a) + x == json_optional(b) + y,
    ensures
        a == b,
        x == y,
{
    reveal_strlit("null");
    match (a, b) {
        (Some(s), Some(t)) => {
            lemma_json_string_unique(s, t, x, y);
        },
        (None, None) => {
            lemma_cancel_prefix("null"@, x, y);
        },
        (Some(s), None) => {
            assert((json_string(s) + x)[0] == '"');
            assert(("null"@ + y)[0] == 'n');
            assert(false);
        },
        (None, Some(t)) => {
            assert((json_string(t) + y)[0] == '"');
            assert(("null"@ + x)[0] == 'n');
            assert(false);
        },
    }
}

/// A member whose value is a string can be told from what follows it.
proof fn lemma_string_member_unique(
    key: Seq<char>,
    a: Seq<char>,
    b: Seq<char>,
    x: Seq<char>,
    y: Seq<char>,
)
    requires
        key + json_string(a) + x == key + json_string(b) + y,
    ensures
        a == b,
        x == y,
{
    assert(key + json_string(a) + x =~= key + (json_string(a) + x));
    assert(key + json_string(b) + y =~= key + (json_string(b) + y));
    lemma_cancel_prefix(key, json_string(a) + x, json_string(b) + y);
    lemma_json_string_unique(a, b, x, y);
}

/// A member whose value may be `null` can be told from what follows it.
proof fn lemma_optional_member_unique(
    key: Seq<char>,
    a: Option<Seq<char>>,
    b: Option<Seq<char>>,
    x: Seq<char>,
    y: Seq<char>,
)
    requires
        key + json_optional(a) + x == key + json_optional(b) + y,
    ensures
        a == b,
        x == y,
{
    assert(key + json_optional(a) + x =~= key + (json_optional(a) + x));
    assert(key + json_optional(b) + y =~= key + (json_optional(b) + y));
    lemma_cancel_prefix(key, json_optional(a) + x, json_optional(b) + y);
    lemma_json_optional_unique(a, b, x, y);
}

/// An object of one string member can be told from what follows it.
proof fn lemma_one_member_unique(
    key: Seq<char>,
    a: Seq<char>,
    b: Seq<char>,
    x: Seq<char>,
    y: Seq<char>,
)
    requires
        key + json_string(a) + "}"@ + x == key + json_string(b) + "}"@ + y,
    ensures
        a == b,
        x == y,
{
    let close = "}"@;
    assert(key + json_string(a) + close + x =~= key + json_string(a) + (close + x));
    assert(key + json_string(b) + close + y =~= key + json_string(b) + (close + y));
    lemma_string_member_unique(key, a, b, close + x, close + y);
    lemma_cancel_prefix(close, x, y);
}

/// An object of two string members can be told from what follows it.
proof fn lemma_two_members_unique(
    key1: Seq<char>,
    key2: Seq<char>,
    a1: Seq<char>,
    a2: Seq<char>,
    b1: Seq<char>,
    b2: Seq<char>,
    x: Seq<char>,
    y: Seq<char>,
)
    requires
        key1 + json_string(a1) + key2 + json_string(a2) + "}"@ + x == key1 + json_string(b1) + key2
            + json_string(b2) + "}"@ + y,
    ensures
        a1 == b1,
        a2 == b2,
        x == y,
{
    let close = "}"@;
    let tail_a = key2 + json_string(a2) + close + x;
    let tail_b = key2 + json_string(b2) + close + y;
    assert(key1 + json_string(a1) + key2 + json_string(a2) + close + x =~= key1 + json_string(a1)
        + tail_a);
    assert(key1 + json_string(b1) + key2 + json_string(b2) + close + y =~= key1 + json_string(b1)
        + tail_b);
    lemma_string_member_unique(key1, a1, b1, tail_a, tail_b);
    lemma_one_member_unique(key2, a2, b2, x, y);
}

/// The payload of an acknowledgment can be told from what follows it.
proof fn lemma_ack_unique(
    s1: Seq<char>,
    m1: Seq<char>,
    u1: Option<Seq<char>>,
    n1: Option<Seq<char>>,
    s2: Seq<char>,
    m2: Seq<char>,
    u2: Option<Seq<char>>,
    n2: Option<Seq<char>>,
    x: Seq<char>,
    y: Seq<char>,
)
    requires
        payload_text(
            MessageView::AuthAck { status: s1, message: m1, minecraft_uuid: u1, username: n1 },
        ) + x == payload_text(
            MessageView::AuthAck { status: s2, message: m2, minecraft_uuid: u2, username: n2 },
        ) + y,
    ensures
        s1 == s2,
        m1 == m2,
        u1 == u2,
        n1 == n2,
        x == y,
{
    let k1 = "{\"status\":"@;
    let k2 = ",\"message\":"@;
    let k3 = ",\"minecraft_uuid\":"@;
    let k4 = ",\"username\":"@;
    let close = "}"@;
    let d1 = k4 + json_optional(n1) + (close + x);
    let d2 = k4 + json_optional(n2) + (close + y);
    let c1 = k3 + json_optional(u1) + d1;
    let c2 = k3 + json_optional(u2) + d2;
    let b1 = k2 + json_string(m1) + c1;
    let b2 = k2 + json_string(m2) + c2;
    assert(payload_text(
        MessageView::AuthAck { status: s1, message: m1, minecraft_uuid: u1, username: n1 },
    ) + x =~= k1 + json_string(s1) + b1);
    assert(payload_text(
        MessageView::AuthAck { status: s2, message: m2, minecraft_uuid: u2, username: n2 },
    ) + y =~= k1 + json_string(s2) + b2);
    lemma_string_member_unique(k1, s1, s2, b1, b2);
    lemma_string_member_unique(k2, m1, m2, c1, c2);
    lemma_optional_member_unique(k3, u1, u2, d1, d2);
    lemma_optional_member_unique(k4, n1, n2, close + x, close + y);
    lemma_cancel_prefix(close, x, y);
}

/// The payload object of a message can be told from what follows it: two
/// messages of one kind whose payloads, each followed by some text, read
/// the same, are the same message followed by the same text.
proof fn lemma_payload_unique(
    first: MessageView,
    second: MessageView,
    x: Seq<char>,
    y: Seq<char>,
)
    requires
        same_kind(first, second),
        payload_text(first) + x == payload_text(second) + y,
    ensures
        first == second,
        x == y,
{
    match (first, second) {
        (
            MessageView::Auth { client_uuid: c1, link_code: l1 },
            MessageView::Auth { client_uuid: c2, link_code: l2 },
        ) => {
            lemma_two_members_unique(
                "{\"client_uuid\":"@,
                ",\"link_code\":"@,
                c1,
                l1,
                c2,
                l2,
                x,
                y,
            );
        },
        (
            MessageView::AuthAck { status: s1, message: m1, minecraft_uuid: u1, username: n1 },
            MessageView::AuthAck { status: s2, message: m2, minecraft_uuid: u2, username: n2 },
        ) => {
            lemma_ack_unique(s1, m1, u1, n1, s2, m2, u2, n2, x, y);
        },
        (MessageView::Chat { message: m1 }, MessageView::Chat { message: m2 }) => {
            lemma_one_member_unique("{\"message\":"@, m1, m2, x, y);
        },
        (
            MessageView::Broadcast { from: f1, message: m1 },
            MessageView::Broadcast { from: f2, message: m2 },
        ) => {
            lemma_two_members_unique("{\"from\":"@, ",\"message\":"@, f1, m1, f2, m2, x, y);
        },
        (MessageView::Disconnect { reason: r1 }, MessageView::Disconnect { reason: r2 }) => {
            lemma_one_member_unique("{\"reason\":"@, r1, r2, x, y);
        },
        _ => {},
    }
}

/// A frame tells its message: messages that are written as the same frame
/// are the same message, in kind and in every field.
pub proof fn frame_tells_message(first: MessageView, second: MessageView)
    requires
        frame_text(first) == frame_text(second),
    ensures
        first == second,
{
    let open = "{\"type\":\""@;
    let middle = "\",\"payload\":"@;
    let end = "}\n"@;
    let after1 = middle + (payload_text(first) + end);
    let after2 = middle + (payload_text(second) + end);
    let rest1 = wire_tag(first) + after1;
    let rest2 = wire_tag(second) + after2;
    assert(frame_text(first) =~= open + rest1);
    assert(frame_text(second) =~= open + rest2);
    lemma_cancel_prefix(open, rest1, rest2);
    assert(same_kind(first, second)) by {
        reveal_strlit("AUTH");
        reveal_strlit("AUTH_ACK");
        reveal_strlit("CHAT");
        reveal_strlit("BROADCAST");
        reveal_strlit("DISCONNECT");
        reveal_strlit("\",\"payload\":");
        assert(rest1[0] == wire_tag(first)[0]);
        assert(rest2[0] == wire_tag(second)[0]);
        if first is Auth && second is AuthAck {
            assert(rest1[4] == after1[0]);
            assert(rest2[4] == wire_tag(second)[4]);
        }
        if first is AuthAck && second is Auth {
            assert(rest2[4] == after2[0]);
            assert(rest1[4] == wire_tag(first)[4]);
        }
    }
    assert(wire_tag(first) == wire_tag(second));
    lemma_cancel_prefix(wire_tag(first), after1, after2);
    lemma_cancel_prefix(middle, payload_text(first) + end, payload_text(second) + end);
    lemma_payload_unique(first, second, end, end);
}

} // verus!
