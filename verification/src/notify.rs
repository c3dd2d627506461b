use vstd::prelude::*;
use vstd::string::StringExecFns;

verus! {

// ---------------------------------------------------------------------------
// Decimal rendering of the dollar amount
// ---------------------------------------------------------------------------

/// The decimal digit character for `d < 10`.
pub open spec fn digit_char(d: nat) -> char {
    if d == 0 {
        '0'
    } else if d == 1 {
        '1'
    } else if d == 2 {
        '2'
    } else if d == 3 {
        '3'
    } else if d == 4 {
        '4'
    } else if d == 5 {
        '5'
    } else if d == 6 {
        '6'
    } else if d == 7 {
        '7'
    } else if d == 8 {
        '8'
    } else {
        '9'
    }
}

/// The decimal digits of a non-negative number, most significant first.
pub open spec fn dec_digits(n: nat) -> Seq<char>
    decreases n,
{
    if n < 10 {
        seq![digit_char(n)]
    } else {
        dec_digits(n / 10) + seq![digit_char(n % 10)]
    }
}

/// The decimal rendering of a signed number: a leading minus sign where it is
/// negative, then its digits.
pub open spec fn dec_chars(n: int) -> Seq<char> {
    if n < 0 {
        seq!['-'] + dec_digits((-n) as nat)
    } else {
        dec_digits(n as nat)
    }
}

/// The one-character string for a decimal digit.
fn digit_str(d: u64) -> (r: &'static str)
    requires
        d < 10,
    ensures
        r@ == seq![digit_char(d as nat)],
{
    let r: &'static str = match d {
        0 => "0",
        1 => "1",
        2 => "2",
        3 => "3",
        4 => "4",
        5 => "5",
        6 => "6",
        7 => "7",
        8 => "8",
        _ => "9",
    };
    proof {
        reveal_strlit("0");
        reveal_strlit("1");
        reveal_strlit("2");
        reveal_strlit("3");
        reveal_strlit("4");
        reveal_strlit("5");
        reveal_strlit("6");
        reveal_strlit("7");
        reveal_strlit("8");
        reveal_strlit("9");
        assert(r@ =~= seq![digit_char(d as nat)]);
    }
    r
}

/// Render a non-negative number in decimal.
pub fn u64_to_dec(n: u64) -> (r: String)
    ensures
        r@ == dec_digits(n as nat),
    decreases n,
{
    if n < 10 {
        String::from_str(digit_str(n))
    } else {
        let mut s = u64_to_dec(n / 10);
        s.append(digit_str(n % 10));
        proof {
            assert(s@ =~= dec_digits(n as nat));
        }
        s
    }
}

/// Render a signed number in decimal, with a minus sign where negative.
pub fn i64_to_dec(n: i64) -> (r: String)
    ensures
        r@ == dec_chars(n as int),
{
    if n >= 0 {
        u64_to_dec(n as u64)
    } else {
        let mut s = String::from_str("-");
        let m: u64 = (-(n as i128)) as u64;
        s.append(u64_to_dec(m).as_str());
        proof {
            reveal_strlit("-");
            assert(s@ =~= dec_chars(n as int));
        }
        s
    }
}

// ---------------------------------------------------------------------------
// The notification payload
// ---------------------------------------------------------------------------

/// The accent color of the notification, an RGB value.
pub const COLOR_SUCCESS: u32 = 0x00FF00;

/// The structured notification payload handed to the chat webhook: a title,
/// a description linking the sponsor's handle to their profile, a fixed
/// accent color, a fixed footer label, and a flag suppressing automatic
/// mention expansion. Ephemeral: built per qualifying event, never stored.
#[derive(Debug, PartialEq, Eq)]
pub struct NotificationMessage {
    pub title: String,
    pub description: String,
    pub color: u32,
    pub footer: String,
    pub suppress_mentions: bool,
}

pub struct NotificationMessageView {
    pub title: Seq<char>,
    pub description: Seq<char>,
    pub color: u32,
    pub footer: Seq<char>,
    pub suppress_mentions: bool,
}

impl View for NotificationMessage {
    type V = NotificationMessageView;

    open spec fn view(&self) -> NotificationMessageView {
        NotificationMessageView {
            title: self.title@,
            description: self.description@,
            color: self.color,
            footer: self.footer@,
            suppress_mentions: self.suppress_mentions,
        }
    }
}

/// The description text: the handle as a markdown-style link to the profile
/// URL, then the dollar amount.
pub open spec fn description_of(login: Seq<char>, html_url: Seq<char>, amount: int) -> Seq<char> {
    "["@ + login + "]("@ + html_url + ") just donated $"@ + dec_chars(amount) + "!"@
}

/// The full notification payload for a new sponsor.
pub open spec fn message_of(login: Seq<char>, html_url: Seq<char>, amount: int) -> NotificationMessageView {
    NotificationMessageView {
        title: "New Sponsor!"@,
        description: description_of(login, html_url, amount),
        color: COLOR_SUCCESS,
        footer: "Sponsorship Notifications"@,
        suppress_mentions: true,
    }
}

/// Build the notification payload for a new sponsor: title `New Sponsor!`,
/// a description linking the handle to the profile URL with the dollar
/// amount, the fixed accent color and footer, and mention expansion
/// suppressed.
pub fn build_notification(login: &str, html_url: &str, amount: i64) -> (m: NotificationMessage)
    ensures
        m@ == message_of(login@, html_url@, amount as int),
{
    let mut description = String::from_str("[");
    description.append(login);
    description.append("](");
    description.append(html_url);
    description.append(") just donated $");
    description.append(i64_to_dec(amount).as_str());
    description.append("!");
    proof {
        assert(description@ =~= description_of(login@, html_url@, amount as int));
    }
    let m = NotificationMessage {
        title: String::from_str("New Sponsor!"),
        description,
        color: COLOR_SUCCESS,
        footer: String::from_str("Sponsorship Notifications"),
        suppress_mentions: true,
    };
    proof {
        assert(m@.title =~= message_of(login@, html_url@, amount as int).title);
        assert(m@.footer =~= message_of(login@, html_url@, amount as int).footer);
    }
    m
}

} // verus!
