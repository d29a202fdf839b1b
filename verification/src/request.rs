//! Builds the one request the pipeline sends: the endpoint path and the JSON
//! body carrying the model identifier, the fixed system instruction, and the
//! user prompt, with streaming disabled. The JSON string encoding is spelled
//! out character by character so the body's exact text is part of the
//! contract.

use vstd::prelude::*;

verus! {

/// The hexadecimal digit of a value below sixteen.
pub open spec fn hex_digit_spec(n: int) -> char {
    if n == 0 {
        '0'
    } else if n == 1 {
        '1'
    } else if n == 2 {
        '2'
    } else if n == 3 {
        '3'
    } else if n == 4 {
        '4'
    } else if n == 5 {
        '5'
    } else if n == 6 {
        '6'
    } else if n == 7 {
        '7'
    } else if n == 8 {
        '8'
    } else if n == 9 {
        '9'
    } else if n == 10 {
        'a'
    } else if n == 11 {
        'b'
    } else if n == 12 {
        'c'
    } else if n == 13 {
        'd'
    } else if n == 14 {
        'e'
    } else {
        'f'
    }
}

/// The JSON string encoding of one character: quote, backslash and the named
/// control characters get a short escape, other control characters a
/// four-digit escape, everything else stands as itself.
pub open spec fn escape_char_spec(c: char) -> Seq<char> {
    if c == '"' {
        seq!['\\', '"']
    } else if c == '\\' {
        seq!['\\', '\\']
    } else if c == '\n' {
        seq!['\\', 'n']
    } else if c == '\r' {
        seq!['\\', 'r']
    } else if c == '\t' {
        seq!['\\', 't']
    } else if (c as u32) < 32 {
        seq![
            '\\',
            'u',
            '0',
            '0',
            hex_digit_spec(c as u32 as int / 16),
            hex_digit_spec(c as u32 as int % 16),
        ]
    } else {
        seq![c]
    }
}

/// The JSON string encoding of a whole text.
pub open spec fn json_escape_spec(s: Seq<char>) -> Seq<char>
    decreases s.len(),
{
    if s.len() == 0 {
        Seq::<char>::empty()
    } else {
        escape_char_spec(s[0]) + json_escape_spec(s.drop_first())
    }
}

proof fn lemma_json_escape_snoc(s: Seq<char>)
    requires
        s.len() > 0,
    ensures
        json_escape_spec(s) == json_escape_spec(s.drop_last()) + escape_char_spec(s.last()),
    decreases s.len(),
{
    if s.len() == 1 {
        assert(s.drop_last() =~= Seq::<char>::empty());
        assert(s.drop_first() =~= Seq::<char>::empty());
        assert(json_escape_spec(s) =~= json_escape_spec(s.drop_last()) + escape_char_spec(
            s.last(),
        ));
    } else {
        lemma_json_escape_snoc(s.drop_first());
        assert(s.drop_first().drop_last() =~= s.drop_last().drop_first());
        assert(s.drop_last()[0] == s[0]);
        assert(escape_char_spec(s[0]) + (json_escape_spec(s.drop_first().drop_last())
            + escape_char_spec(s.last())) =~= (escape_char_spec(s[0]) + json_escape_spec(
            s.drop_last().drop_first(),
        )) + escape_char_spec(s.last()));
    }
}

/// The hexadecimal digit of a value below sixteen, as a one-character text.
fn hex_digit_str(n: u8) -> (r: &'static str)
    requires
        n < 16,
    ensures
        r@.len() == 1,
        r@[0] == hex_digit_spec(n as int),
{
    proof {
        reveal_strlit("0");
        reveal_strlit("1");
        reveal_strlit("2");
        reveal_strlit("3");
        reveal_strlit("4");
        reveal_strlit("5");
        reveal_strlit("6");
        reveal_strlit("7");
        reveal_strlit("8");
        reveal_strlit("9");
        reveal_strlit("a");
        reveal_strlit("b");
        reveal_strlit("c");
        reveal_strlit("d");
        reveal_strlit("e");
        reveal_strlit("f");
    }
    match n {
        0 => "0",
        1 => "1",
        2 => "2",
        3 => "3",
        4 => "4",
        5 => "5",
        6 => "6",
        7 => "7",
        8 => "8",
        9 => "9",
        10 => "a",
        11 => "b",
        12 => "c",
        13 => "d",
        14 => "e",
        _ => "f",
    }
}

/// The JSON string encoding of `s`.
pub fn json_escape(s: &str) -> (r: String)
    ensures
        r@ == json_escape_spec(s@),
{
    let len = s.unicode_len();
    let mut out = String::new();
    let mut i: usize = 0;
    while i < len
        invariant
            0 <= i <= len,
            len == s@.len(),
            out@ == json_escape_spec(s@.take(i as int)),
        decreases len - i,
    {
        let c = s.get_char(i);
        let u = c as u32;
        if c == '"' {
            out.append("\\\"");
            proof {
                reveal_strlit("\\\"");
                assert("\\\""@ =~= escape_char_spec(c));
            }
        } else if c == '\\' {
            out.append("\\\\");
            proof {
                reveal_strlit("\\\\");
                assert("\\\\"@ =~= escape_char_spec(c));
            }
        } else if c == '\n' {
            out.append("\\n");
            proof {
                reveal_strlit("\\n");
                assert("\\n"@ =~= escape_char_spec(c));
            }
        } else if c == '\r' {
            out.append("\\r");
            proof {
                reveal_strlit("\\r");
                assert("\\r"@ =~= escape_char_spec(c));
            }
        } else if c == '\t' {
            out.append("\\t");
            proof {
                reveal_strlit("\\t");
                assert("\\t"@ =~= escape_char_spec(c));
            }
        } else if u < 32 {
            let hi = (u / 16) as u8;
            let lo = (u % 16) as u8;
            let d1 = hex_digit_str(hi);
            let d2 = hex_digit_str(lo);
            out.append("\\u00");
            out.append(d1);
            out.append(d2);
            proof {
                reveal_strlit("\\u00");
                assert("\\u00"@ + d1@ + d2@ =~= escape_char_spec(c));
            }
        } else {
            let one = s.substring_char(i, i + 1);
            out.append(one);
            proof {
                assert(one@ =~= escape_char_spec(c));
            }
        }
        proof {
            lemma_json_escape_snoc(s@.take(i as int + 1));
            assert(s@.take(i as int + 1).drop_last() =~= s@.take(i as int));
            assert(s@.take(i as int + 1).last() == s@[i as int]);
        }
        i = i + 1;
    }
    proof {
        assert(s@.take(len as int) =~= s@);
    }
    out
}

/// The fixed system instruction sent with every request.
pub open spec fn system_instruction_spec() -> Seq<char> {
    "Generate a small Bash/Zsh script for the given task. Return ONLY the raw script without any formatting, markdown, or code block indicators. Dont add explanations if not necessary, else add them as comments within the script."@
}

/// The fixed system instruction as a value.
pub fn system_instruction() -> (r: &'static str)
    ensures
        r@ == system_instruction_spec(),
{
    "Generate a small Bash/Zsh script for the given task. Return ONLY the raw script without any formatting, markdown, or code block indicators. Dont add explanations if not necessary, else add them as comments within the script."
}

/// The exact JSON body of a chat request: the model identifier, the system
/// instruction and the user prompt as the two messages, streaming disabled.
pub open spec fn chat_body_spec(model: Seq<char>, prompt: Seq<char>) -> Seq<char> {
    "{\"model\":\""@ + json_escape_spec(model)
        + "\",\"messages\":[{\"role\":\"system\",\"content\":\""@ + json_escape_spec(
        system_instruction_spec(),
    ) + "\"},{\"role\":\"user\",\"content\":\""@ + json_escape_spec(prompt)
        + "\"}],\"stream\":false}"@
}

/// The JSON body of a chat request as a value.
pub fn chat_request_body(model: &str, prompt: &str) -> (r: String)
    ensures
        r@ == chat_body_spec(model@, prompt@),
{
    let mut body = String::from_str("{\"model\":\"");
    let escaped_model = json_escape(model);
    body.append(escaped_model.as_str());
    body.append("\",\"messages\":[{\"role\":\"system\",\"content\":\"");
    let escaped_system = json_escape(system_instruction());
    body.append(escaped_system.as_str());
    body.append("\"},{\"role\":\"user\",\"content\":\"");
    let escaped_prompt = json_escape(prompt);
    body.append(escaped_prompt.as_str());
    body.append("\"}],\"stream\":false}");
    proof {
        assert(body@ =~= chat_body_spec(model@, prompt@));
    }
    body
}

/// The endpoint path of the chat request, under the configured base URL.
pub fn chat_endpoint(url: &str) -> (r: String)
    ensures
        r@ == url@ + "/api/chat"@,
{
    String::from_str(url).concat("/api/chat")
}

} // verus!
