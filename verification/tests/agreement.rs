use workflow_engine::html::html_to_text;
use workflow_engine::requests::vault_read_request;
use workflow_engine::toolcall::{extract_arg, parse_tool_call, thought};

/// A small generator of repeatable, varied texts over a given alphabet.
struct Texts {
    state: u64,
}

impl Texts {
    fn next(&mut self) -> u64 {
        self.state = self
            .state
            .wrapping_mul(6364136223846793005)
            .wrapping_add(1442695040888963407);
        self.state >> 33
    }

    fn text(&mut self, alphabet: &[&str], max_len: u64) -> String {
        let len = self.next() % (max_len + 1);
        let mut s = String::new();
        for _ in 0..len {
            s.push_str(alphabet[(self.next() % alphabet.len() as u64) as usize]);
        }
        s
    }
}

fn unquote(s: &str) -> &str {
    let mut chars = s.chars();
    match (chars.next(), chars.next_back()) {
        (Some(first), Some(last)) if (first == '"' || first == '\'') && last == first => {
            &s[1..s.len() - 1]
        }
        _ => s,
    }
}

fn expected_call(text: &str) -> Option<String> {
    let start = text.find("[TOOL: ")?;
    let from = start + "[TOOL: ".len();
    let end = from + text[from..].find(']')?;
    Some(text[from..end].trim().to_string())
}

fn expected_argument(call: &str) -> String {
    match (call.find('('), call.rfind(')')) {
        (Some(open), Some(close)) if open < close => {
            unquote(call[open + 1..close].trim()).trim().to_string()
        }
        _ => call.trim().to_string(),
    }
}

#[test]
fn parser_agrees_with_a_plain_reading_of_its_rule() {
    let alphabet = [
        "[TOOL: ", "[TOOL:", "[", "]", "(", ")", "\"", "'", " ", "\t", "\u{a0}", "a", "search",
        "é", "vault_read",
    ];
    let mut texts = Texts { state: 7 };
    let mut with_call = 0;
    for _ in 0..20_000 {
        let text = texts.text(&alphabet, 12);
        let call = parse_tool_call(&text);
        assert_eq!(call, expected_call(&text), "{:?}", text);
        if let Some(call) = call {
            with_call += 1;
            assert_eq!(extract_arg(&call), expected_argument(&call), "{:?}", call);
        }
        assert_eq!(extract_arg(&text), expected_argument(&text), "{:?}", text);
        let before = match text.find("[TOOL:") {
            Some(start) => &text[..start],
            None => &text[..],
        };
        assert_eq!(thought(&text), before.trim(), "{:?}", text);
    }
    assert!(with_call > 1_000);
}

#[test]
fn whitespace_collapse_agrees_with_split_and_join() {
    let alphabet = [" ", "\t", "\n", "\u{a0}", "\u{3000}", "a", "b", "ü", "\u{200b}"];
    let mut texts = Texts { state: 11 };
    for _ in 0..20_000 {
        let text = texts.text(&alphabet, 10);
        let expected = text.split_whitespace().collect::<Vec<_>>().join(" ");
        assert_eq!(html_to_text(&text), expected, "{:?}", text);
    }
}

fn expected_text(html: &str) -> String {
    let lower = html.to_lowercase();
    let hides = (lower.contains("<script") && !lower.contains("</script"))
        || (lower.contains("<style") && !lower.contains("</style"));
    let mut shown = String::new();
    let mut in_tag = false;
    let mut opened = false;
    for c in html.chars() {
        match c {
            '<' => {
                in_tag = true;
                opened = true;
            }
            '>' => in_tag = false,
            _ if !in_tag && !(hides && opened) => shown.push(c),
            _ => {}
        }
    }
    shown.split_whitespace().collect::<Vec<_>>().join(" ")
}

#[test]
fn tag_stripping_agrees_with_a_plain_reading_of_its_rule() {
    let alphabet = [
        "<", ">", "<script", "</script", "<STYLE", "</style", "<p>", "</p>", " ", "x", "y\n",
    ];
    let mut texts = Texts { state: 13 };
    for _ in 0..20_000 {
        let text = texts.text(&alphabet, 10);
        assert_eq!(html_to_text(&text), expected_text(&text), "{:?}", text);
    }
}

fn expected_encoding(s: &str) -> String {
    let mut out = String::new();
    for b in s.bytes() {
        let plain = b.is_ascii_alphanumeric() || b == b'-' || b == b'.' || b == b'_' || b == b'~';
        if plain {
            out.push(b as char);
        } else {
            out.push('%');
            out.push(char::from_digit((b / 16) as u32, 16).unwrap().to_ascii_uppercase());
            out.push(char::from_digit((b % 16) as u32, 16).unwrap().to_ascii_uppercase());
        }
    }
    out
}

#[test]
fn addresses_follow_the_percent_encoding_rule() {
    let base = "https://127.0.0.1:27124/vault/";
    let mut u: u32 = 0;
    while u < 0x3000 {
        if let Some(c) = char::from_u32(u) {
            let path = format!("a{}b", c);
            assert_eq!(
                vault_read_request(&path, "k").url,
                format!("{}{}", base, expected_encoding(&path)),
                "U+{:04X}",
                u
            );
        }
        u += 1;
    }
    let path = "Reference/Docs/ü 👾.md";
    assert_eq!(
        vault_read_request(path, "k").url,
        "https://127.0.0.1:27124/vault/Reference%2FDocs%2F%C3%BC%20%F0%9F%91%BE.md"
    );
}
