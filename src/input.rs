use vstd::prelude::*;
use crate::model::{Model, ModelView, MAX_TOKENS_LIMIT, DEFAULT_SERVER_URL, OLLAMA_MODEL_NAME};

verus! {

/// What `str::trim` leaves of a line: the text without its leading and
/// trailing Unicode white space.
pub uninterp spec fn trim_of(s: Seq<char>) -> Seq<char>;

/// Relies on `str::trim`: the result depends on the characters alone.
#[verifier::external_body]
pub(crate) fn trim_line(s: &str) -> (r: &str)
    ensures
        r@ == trim_of(s@),
{
    s.trim()
}

pub open spec fn is_decimal_digit(c: char) -> bool {
    '0' <= c <= '9'
}

pub open spec fn all_decimal_digits(s: Seq<char>) -> bool {
    forall|i: int| 0 <= i < s.len() ==> is_decimal_digit(#[trigger] s[i])
}

/// Value of a sequence of decimal digits, most significant first.
pub open spec fn digits_value(s: Seq<char>) -> int
    decreases s.len(),
{
    if s.len() == 0 {
        0
    } else {
        10 * digits_value(s.drop_last()) + (s.last() as int - '0' as int)
    }
}

/// The integer that a text of an optional `+` or `-` followed by one or more
/// decimal digits denotes; `None` for any other text.
pub open spec fn signed_decimal(s: Seq<char>) -> Option<int> {
    if s.len() > 0 && (s[0] == '+' || s[0] == '-') {
        let d = s.skip(1);
        if d.len() > 0 && all_decimal_digits(d) {
            Some(if s[0] == '-' { -digits_value(d) } else { digits_value(d) })
        } else {
            None
        }
    } else if s.len() > 0 && all_decimal_digits(s) {
        Some(digits_value(s))
    } else {
        None
    }
}

/// What parsing a text as an `i32` gives: its decimal value when that fits.
pub open spec fn parsed_i32(s: Seq<char>) -> Option<i32> {
    match signed_decimal(s) {
        Some(v) => if i32::MIN <= v <= i32::MAX {
            Some(v as i32)
        } else {
            None
        },
        None => None,
    }
}

/// Relies on `<i32 as FromStr>::from_str`: an optional sign, then ASCII
/// decimal digits only, and a value within `i32`; any other text is an error.
#[verifier::external_body]
pub(crate) fn parse_i32(s: &str) -> (r: Option<i32>)
    ensures
        r == parsed_i32(s@),
{
    s.parse::<i32>().ok()
}

/// Whether `t` holds exactly the characters of `lit`.
fn same_text(t: &str, lit: &str) -> (r: bool)
    ensures
        r == (t@ == lit@),
{
    let n = t.unicode_len();
    if n != lit.unicode_len() {
        return false;
    }
    let mut i: usize = 0;
    while i < n
        invariant
            n == t@.len(),
            n == lit@.len(),
            i <= n,
            forall|j: int| 0 <= j < i ==> t@[j] == lit@[j],
        decreases n - i,
    {
        if t.get_char(i) != lit.get_char(i) {
            return false;
        }
        i = i + 1;
    }
    assert(t@ =~= lit@);
    true
}

/// The outcome of a menu answer.
pub enum MenuChoice {
    /// A backend that needs nothing more.
    Picked(Model),
    /// The local file model, whose path and server are asked next.
    LocalFile,
    /// No menu entry has this key.
    Unknown,
}

/// Mathematical view of a [`MenuChoice`].
pub enum MenuChoiceView {
    Picked(ModelView),
    LocalFile,
    Unknown,
}

impl View for MenuChoice {
    type V = MenuChoiceView;

    open spec fn view(&self) -> MenuChoiceView {
        match self {
            MenuChoice::Picked(m) => MenuChoiceView::Picked(m@),
            MenuChoice::LocalFile => MenuChoiceView::LocalFile,
            MenuChoice::Unknown => MenuChoiceView::Unknown,
        }
    }
}

/// The menu: keys `1` to `4`, matched exactly against the trimmed answer.
pub open spec fn menu_choice(t: Seq<char>) -> MenuChoiceView {
    if t == seq!['1'] {
        MenuChoiceView::Picked(ModelView::OpenAiGpt4o)
    } else if t == seq!['2'] {
        MenuChoiceView::Picked(ModelView::OpenAiGpt4oMini)
    } else if t == seq!['3'] {
        MenuChoiceView::Picked(ModelView::Ollama(OLLAMA_MODEL_NAME@))
    } else if t == seq!['4'] {
        MenuChoiceView::LocalFile
    } else {
        MenuChoiceView::Unknown
    }
}

/// Reads a trimmed menu answer.
pub fn choose_model(t: &str) -> (r: MenuChoice)
    ensures
        r@ == menu_choice(t@),
{
    proof {
        reveal_strlit("1");
        reveal_strlit("2");
        reveal_strlit("3");
        reveal_strlit("4");
        assert("1"@ =~= seq!['1']);
        assert("2"@ =~= seq!['2']);
        assert("3"@ =~= seq!['3']);
        assert("4"@ =~= seq!['4']);
    }
    if same_text(t, "1") {
        MenuChoice::Picked(Model::OpenAiGpt4o)
    } else if same_text(t, "2") {
        MenuChoice::Picked(Model::OpenAiGpt4oMini)
    } else if same_text(t, "3") {
        MenuChoice::Picked(Model::Ollama(OLLAMA_MODEL_NAME.to_string()))
    } else if same_text(t, "4") {
        MenuChoice::LocalFile
    } else {
        MenuChoice::Unknown
    }
}

/// The server endpoint for a trimmed answer: the answer itself, or the
/// default endpoint when the answer is empty.
pub open spec fn server_url_for(t: Seq<char>) -> Seq<char> {
    if t.len() == 0 {
        DEFAULT_SERVER_URL@
    } else {
        t
    }
}

/// Applies the default endpoint to a trimmed answer.
pub fn server_url_or_default(t: &str) -> (r: String)
    ensures
        r@ == server_url_for(t@),
{
    if t.is_empty() {
        DEFAULT_SERVER_URL.to_string()
    } else {
        t.to_string()
    }
}

/// The token limit that a trimmed answer gives, if it gives one: a decimal
/// `i32` within `1..=MAX_TOKENS_LIMIT`.
pub open spec fn max_tokens_for(t: Seq<char>) -> Option<i32> {
    match parsed_i32(t) {
        Some(v) => if 1 <= v <= MAX_TOKENS_LIMIT {
            Some(v)
        } else {
            None
        },
        None => None,
    }
}

/// Reads a trimmed token-limit answer.
pub fn max_tokens_from(t: &str) -> (r: Option<i32>)
    ensures
        r == max_tokens_for(t@),
{
    match parse_i32(t) {
        Some(v) => if 1 <= v && v <= MAX_TOKENS_LIMIT {
            Some(v)
        } else {
            None
        },
        None => None,
    }
}

} // verus!
