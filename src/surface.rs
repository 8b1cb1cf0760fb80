//! What the countdown surface is sent: its page, and the script that
//! updates the countdown on it.

use vstd::prelude::*;

verus! {

/// `c` as HTML text.
pub open spec fn html_escaped_char(c: char) -> Seq<char> {
    if c == '&' {
        "&amp;"@
    } else if c == '<' {
        "&lt;"@
    } else if c == '>' {
        "&gt;"@
    } else if c == '"' {
        "&quot;"@
    } else if c == '\'' {
        "&#39;"@
    } else {
        seq![c]
    }
}

/// `s` as HTML text: each markup character replaced by its entity.
pub open spec fn html_escaped(s: Seq<char>) -> Seq<char>
    decreases s.len(),
{
    if s.len() == 0 {
        Seq::empty()
    } else {
        html_escaped(s.drop_last()) + html_escaped_char(s.last())
    }
}

/// Escapes `&`, `<`, `>`, `"` and `'` for use in HTML text.
pub fn escape_html(value: &str) -> (r: String)
    ensures
        r@ == html_escaped(value@),
{
    let n = value.unicode_len();
    let mut escaped = String::new();
    let mut i: usize = 0;
    while i < n
        invariant
            n == value@.len(),
            i <= n,
            escaped@ == html_escaped(value@.subrange(0, i as int)),
        decreases n - i,
    {
        let ch = value.get_char(i);
        if ch == '&' {
            escaped.append("&amp;");
        } else if ch == '<' {
            escaped.append("&lt;");
        } else if ch == '>' {
            escaped.append("&gt;");
        } else if ch == '"' {
            escaped.append("&quot;");
        } else if ch == '\'' {
            escaped.append("&#39;");
        } else {
            crate::text::push_char(&mut escaped, ch);
        }
        proof {
            assert(value@.subrange(0, i + 1).drop_last() =~= value@.subrange(0, i as int));
        }
        i = i + 1;
    }
    proof {
        assert(value@.subrange(0, n as int) =~= value@);
    }
    escaped
}

/// The countdown page: up to the title.
pub const PAGE_HEAD: &'static str = r#"<!DOCTYPE html>
<html lang="zh-CN">
<head>
    <meta charset="UTF-8">
    <meta name="viewport" content="width=device-width, initial-scale=1.0">
    <title>Aligned Kegel Guide</title>
    <style>
        :root {
            --card-bg: #f2f0e9;
            --text-main: #333333;
            --text-sub: #757575;
            --font-serif: 'Times New Roman', Times, serif;
            --font-sans: 'Helvetica Neue', Helvetica, Arial, sans-serif;
            --anim-duration: 4s;
        }

        * {
            box-sizing: border-box;
        }

        body {
            margin: 0;
            padding: 0;
            height: 100vh;
            background-color: #000;
            display: flex;
            justify-content: center;
            align-items: center;
            user-select: none;
        }

        .screen {
            width: 100%;
            height: 100%;
            display: flex;
            flex-direction: column;
            align-items: center;
            justify-content: center;
            gap: clamp(16px, 3vh, 32px);
            padding: clamp(24px, 5vh, 64px) 24px;
        }

        .title {
            font-family: var(--font-sans);
            font-size: clamp(18px, 2.4vw, 28px);
            color: #e8e5dc;
            text-align: center;
        }

        .countdown {
            font-family: var(--font-sans);
            font-size: clamp(48px, 7vw, 96px);
            font-weight: 700;
            font-variant-numeric: tabular-nums;
            color: #f2f0e9;
            line-height: 1;
        }

        .card {
            background-color: var(--card-bg);
            width: min(90vw, 600px, calc(70vh * 4 / 3.2));
            aspect-ratio: 4 / 3.2;
            border-radius: 30px;
            display: flex;
            flex-direction: column;
            justify-content: center;
            align-items: center;
            position: relative;
            box-shadow: 0 20px 50px rgba(0, 0, 0, 0.5);
        }

        .symbol-area {
            flex: 1;
            display: flex;
            align-items: center;
            justify-content: center;
            width: 100%;
            padding-top: 40px;
        }

        .symbol-text {
            font-family: var(--font-serif);
            font-size: clamp(120px, 18vw, 176px);
            line-height: 1;
            color: var(--text-main);
            display: flex;
            align-items: center;
        }

        .bracket {
            display: inline-block;
            font-weight: 300;
            animation: bracket-move var(--anim-duration) cubic-bezier(0.45, 0, 0.55, 1) infinite;
        }

        .star {
            display: inline-block;
            margin: 0 20px;
            font-weight: 400;
            transform: translateY(25px) scale(1);
            transform-origin: center calc(50% + 25px);
            animation: star-breathe var(--anim-duration) cubic-bezier(0.45, 0, 0.55, 1) infinite;
        }

        .text-area {
            height: 120px;
            display: flex;
            flex-direction: column;
            justify-content: flex-start;
            align-items: center;
            padding-bottom: 30px;
        }

        .status-group {
            display: flex;
            flex-direction: column;
            align-items: center;
            text-align: center;
            font-family: var(--font-sans);
            font-size: 0.8rem;
            letter-spacing: 0.2em;
            font-weight: 500;
            color: var(--text-sub);
            position: absolute;
            transition: opacity 0.5s;
        }

        .slash {
            margin: 4px 0;
            opacity: 0.5;
            font-weight: 300;
        }

        .hint {
            font-family: var(--font-sans);
            font-size: clamp(14px, 2vw, 22px);
            color: #b5b5b5;
            text-align: center;
            max-width: 80vw;
        }

        @keyframes bracket-move {
            0%, 100% { transform: translateX(0); }
            40%, 70% { transform: translateX(var(--dir)); }
        }
        .bracket.left { --dir: 40px; }
        .bracket.right { --dir: -40px; }

        @keyframes star-breathe {
            0%, 100% {
                transform: translateY(25px) scale(1.1);
                opacity: 0.8;
            }
            40%, 70% {
                transform: translateY(25px) scale(0.65);
                opacity: 1;
                color: #111;
            }
        }

        .status-group.relax { animation: fade-relax var(--anim-duration) infinite; }
        .status-group.tight { animation: fade-tight var(--anim-duration) infinite; }

        @keyframes fade-relax {
            0%, 20%, 90%, 100% { opacity: 1; filter: blur(0); }
            30%, 80% { opacity: 0; filter: blur(4px); }
        }

        @keyframes fade-tight {
            0%, 25%, 85%, 100% { opacity: 0; filter: blur(4px); }
            35%, 75% { opacity: 1; filter: blur(0); }
        }
    </style>
</head>
<body>
<div class="screen">
    <div class="title" id="title">"#;

pub open spec fn page_head() -> Seq<char> {
    PAGE_HEAD@
}

fn page_head_text() -> (r: &'static str)
    ensures
        r@ == page_head(),
{
    PAGE_HEAD
}

/// The countdown page: between the title and the countdown.
pub const PAGE_AFTER_TITLE: &'static str = r#"</div>
    <div class="countdown" id="countdown">"#;

pub open spec fn page_after_title() -> Seq<char> {
    PAGE_AFTER_TITLE@
}

fn page_after_title_text() -> (r: &'static str)
    ensures
        r@ == page_after_title(),
{
    PAGE_AFTER_TITLE
}

/// The countdown page: between the countdown and the hint.
pub const PAGE_AFTER_COUNTDOWN: &'static str = r#"</div>
    <div class="card">
        <div class="symbol-area">
            <div class="symbol-text">
                <span class="bracket left">{</span>
                <span class="star">*</span>
                <span class="bracket right">}</span>
            </div>
        </div>

        <div class="text-area">
            <div class="status-group relax">
                <span>RELAX</span>
                <span class="slash">/</span>
                <span>INHALE</span>
            </div>

            <div class="status-group tight">
                <span>TIGHTEN</span>
                <span class="slash">/</span>
                <span>HOLD</span>
            </div>
        </div>
    </div>
    <div class="hint" id="hint">"#;

pub open spec fn page_after_countdown() -> Seq<char> {
    PAGE_AFTER_COUNTDOWN@
}

fn page_after_countdown_text() -> (r: &'static str)
    ensures
        r@ == page_after_countdown(),
{
    PAGE_AFTER_COUNTDOWN
}

/// The countdown page: after the hint.
pub const PAGE_TAIL: &'static str = r#"</div>
</div>
<script>
    window.setCountdown = (value) => {
        const el = document.getElementById('countdown');
        if (el) {
            el.textContent = value;
        }
    };
    window.setTitle = (value) => {
        const el = document.getElementById('title');
        if (el) {
            el.textContent = value;
        }
    };
    window.setHint = (value) => {
        const el = document.getElementById('hint');
        if (el) {
            el.textContent = value;
        }
    };
</script>
</body>
</html>
"#;

pub open spec fn page_tail() -> Seq<char> {
    PAGE_TAIL@
}

fn page_tail_text() -> (r: &'static str)
    ensures
        r@ == page_tail(),
{
    PAGE_TAIL
}

/// The countdown page showing `title`, `countdown` and `hint`.
pub open spec fn kegel_page(title: Seq<char>, countdown: Seq<char>, hint: Seq<char>) -> Seq<char> {
    page_head() + html_escaped(title) + page_after_title() + html_escaped(countdown)
        + page_after_countdown() + html_escaped(hint) + page_tail()
}

/// The full-screen countdown page: a guided pelvic-floor exercise under the
/// title and the countdown, with the hint below; the three texts are
/// escaped.
pub fn build_kegel_html(title: &str, countdown: &str, hint: &str) -> (r: String)
    ensures
        r@ == kegel_page(title@, countdown@, hint@),
{
    let mut html = String::from_str(page_head_text());
    html.append(escape_html(title).as_str());
    html.append(page_after_title_text());
    html.append(escape_html(countdown).as_str());
    html.append(page_after_countdown_text());
    html.append(escape_html(hint).as_str());
    html.append(page_tail_text());
    html
}

/// The JSON string literal that `serde_json` writes for `s`.
pub uninterp spec fn json_quoted(s: Seq<char>) -> Seq<char>;

/// Nothing in `s` needs escaping in a JSON string: no double quote, no
/// backslash and no control character below U+0020.
pub open spec fn json_plain(s: Seq<char>) -> bool {
    forall|i: int| 0 <= i < s.len() ==> (#[trigger] s[i] != '"' && s[i] != '\\' && s[i] >= ' ')
}

/// Relies on `serde_json::to_string` for a `str`: the JSON string literal
/// of `s`, which is `s` itself between double quotes when nothing in it
/// needs escaping.
#[verifier::external_body]
fn json_string(s: &str) -> (r: Option<String>)
    ensures
        r matches Some(j) ==> j@ == json_quoted(s@),
        r matches Some(j) ==> (json_plain(s@) ==> j@ == seq!['"'] + s@ + seq!['"']),
{
    serde_json::to_string(s).ok()
}

/// The script that sets the page's countdown to the JSON value `json`.
pub open spec fn set_countdown_text(json: Seq<char>) -> Seq<char> {
    "window.setCountdown("@ + json + ");"@
}

/// The script that sets the page's countdown to the JSON value `json`.
pub fn set_countdown_script(json: &str) -> (r: String)
    ensures
        r@ == set_countdown_text(json@),
{
    let mut s = String::from_str("window.setCountdown(");
    s.append(json);
    s.append(");");
    s
}

/// The script that shows `text` as the page's countdown; should the
/// encoding fail, the countdown is set to the empty string.
pub fn countdown_script(text: &str) -> (r: String)
    ensures
        r@ == set_countdown_text(json_quoted(text@)) || r@ == set_countdown_text("\"\""@),
        json_plain(text@) ==> (r@ == set_countdown_text(seq!['"'] + text@ + seq!['"'])
            || r@ == set_countdown_text("\"\""@)),
{
    match json_string(text) {
        Some(j) => set_countdown_script(j.as_str()),
        None => set_countdown_script("\"\""),
    }
}

} // verus!
