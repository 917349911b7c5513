//! Notification payload: the structured message describing a new question,
//! built fresh per accepted submission, and the notion of a successful
//! delivery. The delivery itself (a single HTTP POST) is I/O and lives
//! outside the library; everything it sends is constructed and pinned here.

use vstd::prelude::*;

verus! {

/// The outbound webhook message: a sender label, a mention of the page owner,
/// and exactly one embedded block describing the question.
pub struct DiscordWebhookPayload {
    pub username: String,
    pub content: String,
    pub embeds: Vec<DiscordWebhookEmbedPayload>,
}

/// The embedded block: title, the sanitized question text, a fixed color
/// code, and an ISO-8601 timestamp.
pub struct DiscordWebhookEmbedPayload {
    pub title: String,
    pub description: String,
    pub color: usize,
    pub timestamp: String,
}

/// The color code of every question embed (hex `#3498db`).
pub const EMBED_COLOR: usize = 3447003;

/// The decimal digit character for `d`.
pub open spec fn digit_char(d: int) -> char
    recommends
        0 <= d < 10,
{
    ((d + 48) as u8) as char
}

/// The decimal digit string of a non-negative number, most significant digit
/// first, without leading zeros (a single `'0'` for zero).
pub open spec fn dec_digits(n: int) -> Seq<char>
    recommends
        0 <= n,
    decreases n,
{
    if n < 10 {
        seq![digit_char(n)]
    } else {
        dec_digits(n / 10).push(digit_char(n % 10))
    }
}

/// The mention string that makes the notification address its target user.
pub open spec fn mention_of(user_id: int) -> Seq<char> {
    "<@"@ + dec_digits(user_id) + ">"@
}

/// The sender label shown on the notification.
pub open spec fn sender_label_of(owner_name: Seq<char>) -> Seq<char> {
    owner_name + "'s Fragekasten"@
}

/// Relies on String::push: appends the one character at the end.
#[verifier::external_body]
fn string_push(s: &mut String, c: char)
    ensures
        final(s)@ == old(s)@.push(c),
{
    s.push(c);
}

/// Writes `n` in decimal, most significant digit first.
pub fn u64_to_decimal(n: u64) -> (s: String)
    ensures
        s@ == dec_digits(n as int),
    decreases n,
{
    if n < 10 {
        let mut s = String::new();
        string_push(&mut s, ((n as u8) + 48) as char);
        proof {
            assert(s@ =~= seq![digit_char(n as int)]);
        }
        s
    } else {
        let mut s = u64_to_decimal(n / 10);
        string_push(&mut s, (((n % 10) as u8) + 48) as char);
        s
    }
}

/// The `<@id>` mention string for the target user.
pub fn format_mention(user_id: usize) -> (s: String)
    ensures
        s@ == mention_of(user_id as int),
{
    let mut s = String::from_str("<@");
    let digits = u64_to_decimal(user_id as u64);
    s.append(digits.as_str());
    s.append(">");
    s
}

/// Builds the notification payload for one accepted question: the owner's
/// sender label, a mention of the target user, and one embed holding the
/// sanitized question text, the fixed color, and the given timestamp.
pub fn build_webhook_payload(
    owner_name: &str,
    user_id: usize,
    question: &str,
    timestamp: &str,
) -> (p: DiscordWebhookPayload)
    ensures
        p.username@ == sender_label_of(owner_name@),
        p.content@ == mention_of(user_id as int),
        p.embeds@.len() == 1,
        p.embeds@[0].title@ == "New Question"@,
        p.embeds@[0].description@ == question@,
        p.embeds@[0].color == EMBED_COLOR,
        p.embeds@[0].timestamp@ == timestamp@,
{
    let mut username = String::from_str(owner_name);
    username.append("'s Fragekasten");
    let embed = DiscordWebhookEmbedPayload {
        title: String::from_str("New Question"),
        description: String::from_str(question),
        color: EMBED_COLOR,
        timestamp: String::from_str(timestamp),
    };
    let mut embeds: Vec<DiscordWebhookEmbedPayload> = Vec::new();
    embeds.push(embed);
    DiscordWebhookPayload { username, content: format_mention(user_id), embeds }
}

/// Decides whether an HTTP status code from the notification endpoint counts
/// as a successful delivery: the 2xx range.
pub fn is_success_status(status: u16) -> (r: bool)
    ensures
        r == (200 <= status < 300),
{
    200 <= status && status < 300
}

} // verus!
