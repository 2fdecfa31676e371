//! The render projection: a pure function from the view state to markup.
//!
//! The markup shows, in order: the user sidebar (one row per profile, with
//! avatar and name), the chat pane (a typing bubble exactly while the local
//! user is typing, then one bubble per message in arrival order), and the
//! input bar. A message whose text ends in `.gif` renders as an image
//! reference, any other as plain text; the sender's profile is resolved by
//! name against the roster, falling back to an empty avatar when the name
//! is absent. Spliced text — names, avatars, message bodies — is escaped,
//! so it renders as text and cannot become markup of the page itself.

use vstd::prelude::*;
use crate::chat::{Chat, UserProfile};
use crate::codec::ChatMessage;
use crate::text::push_char;

verus! {

/// How one character appears inside rendered markup: the four
/// markup-significant characters become entities, so spliced text stays
/// text and cannot inject elements; every other character stands as
/// itself.
pub open spec fn hesc_char(c: char) -> Seq<char> {
    if c == '&' { "&amp;"@ } else if c == '<' { "&lt;"@ } else if c == '>' { "&gt;"@ } else if c
        == '"' { "&quot;"@ } else { seq![c] }
}

/// The escapes of the first `n` characters of `s`, concatenated.
pub open spec fn hesc_upto(s: Seq<char>, n: int) -> Seq<char>
    decreases n,
{
    if n <= 0 { Seq::empty() } else { hesc_upto(s, n - 1) + hesc_char(s[n - 1]) }
}

/// The markup-escaped form of `s`.
pub open spec fn html_escape(s: Seq<char>) -> Seq<char> {
    hesc_upto(s, s.len() as int)
}

/// Appends the markup-escaped form of `s`.
fn push_html_escaped(out: &mut String, s: &str)
    ensures
        final(out)@ == old(out)@ + html_escape(s@),
{
    let n = s.unicode_len();
    let mut i: usize = 0;
    while i < n
        invariant
            n == s@.len(),
            0 <= i <= n,
            out@ == old(out)@ + hesc_upto(s@, i as int),
        decreases n - i,
    {
        let c = s.get_char(i);
        if c == '&' {
            out.append("&amp;");
        } else if c == '<' {
            out.append("&lt;");
        } else if c == '>' {
            out.append("&gt;");
        } else if c == '"' {
            out.append("&quot;");
        } else {
            push_char(out, c);
        }
        assert(out@ =~= old(out)@ + hesc_upto(s@, i + 1));
        i = i + 1;
    }
}

/// The avatar of the first roster entry whose name is `from`, or the empty
/// string when no entry matches.
pub open spec fn lookup_avatar(users: Seq<UserProfile>, from: Seq<char>) -> Seq<char>
    decreases users.len(),
{
    if users.len() == 0 {
        Seq::empty()
    } else if users[0].name@ == from {
        users[0].avatar@
    } else {
        lookup_avatar(users.drop_first(), from)
    }
}

/// Resolves a sender name against the roster: the first matching profile's
/// avatar, or the empty-avatar fallback, so that every message renders.
pub fn resolve_avatar(users: &Vec<UserProfile>, from: &str) -> (r: String)
    ensures
        r@ == lookup_avatar(users@, from@),
{
    let target = from.to_owned();
    let n = users.len();
    let mut i: usize = 0;
    assert(users@.skip(0) =~= users@);
    while i < n
        invariant
            target@ == from@,
            n == users@.len(),
            0 <= i <= n,
            lookup_avatar(users@, from@) == lookup_avatar(users@.skip(i as int), from@),
        decreases n - i,
    {
        if users[i].name == target {
            assert(users@.skip(i as int)[0] == users@[i as int]);
            return users[i].avatar.clone();
        }
        assert(users@.skip(i as int).drop_first() =~= users@.skip(i as int + 1));
        i = i + 1;
    }
    String::new()
}

/// A message text renders as an image exactly when it ends with the
/// literal suffix `.gif`.
pub open spec fn is_gif(s: Seq<char>) -> bool {
    s.len() >= 4 && s[s.len() - 4] == '.' && s[s.len() - 3] == 'g' && s[s.len() - 2] == 'i'
        && s[s.len() - 1] == 'f'
}

/// Whether `s` ends with the literal suffix `.gif`.
pub fn gif_ref(s: &str) -> (r: bool)
    ensures
        r == is_gif(s@),
{
    let n = s.unicode_len();
    if n < 4 {
        return false;
    }
    s.get_char(n - 4) == '.' && s.get_char(n - 3) == 'g' && s.get_char(n - 2) == 'i'
        && s.get_char(n - 1) == 'f'
}

/// One sidebar row: avatar and name, both escaped.
pub open spec fn user_row(u: UserProfile) -> Seq<char> {
    "<div class=\"user-row\"><img class=\"avatar\" src=\""@ + html_escape(u.avatar@)
        + "\" alt=\"avatar\"/><div class=\"user-name\">"@ + html_escape(u.name@)
        + "</div><div class=\"user-note\">Hi there!</div></div>"@
}

/// The first `n` sidebar rows, concatenated in roster order.
pub open spec fn user_rows_upto(users: Seq<UserProfile>, n: int) -> Seq<char>
    decreases n,
{
    if n <= 0 { Seq::empty() } else { user_rows_upto(users, n - 1) + user_row(users[n - 1]) }
}

/// The body of one message bubble: an image reference for a `.gif` text,
/// the text itself otherwise; either way the text is escaped.
pub open spec fn message_body(m: ChatMessage) -> Seq<char> {
    if is_gif(m.message@) {
        "<img class=\"gif\" src=\""@ + html_escape(m.message@) + "\"/>"@
    } else {
        html_escape(m.message@)
    }
}

/// One message bubble: the sender's resolved avatar, the sender's name, and
/// the body, each escaped.
pub open spec fn message_row(users: Seq<UserProfile>, m: ChatMessage) -> Seq<char> {
    "<div class=\"message\"><img class=\"avatar\" src=\""@ + html_escape(
        lookup_avatar(users, m.from@),
    ) + "\" alt=\"avatar\"/><div class=\"from\">"@ + html_escape(m.from@)
        + "</div><div class=\"text\">"@ + message_body(m) + "</div></div>"@
}

/// The first `n` message bubbles, concatenated in arrival order.
pub open spec fn message_rows_upto(
    users: Seq<UserProfile>,
    messages: Seq<ChatMessage>,
    n: int,
) -> Seq<char>
    decreases n,
{
    if n <= 0 {
        Seq::empty()
    } else {
        message_rows_upto(users, messages, n - 1) + message_row(users, messages[n - 1])
    }
}

/// The typing bubble, shown exactly while the local user is typing.
pub open spec fn typing_bubble(is_typing: bool) -> Seq<char> {
    if is_typing { "<div class=\"typing\">...</div>"@ } else { Seq::empty() }
}

/// The markup for a view state: sidebar, chat pane (typing bubble, then the
/// messages), input bar.
pub open spec fn render_view(c: Chat) -> Seq<char> {
    "<div class=\"chat\"><div class=\"sidebar\"><div class=\"title\">Users</div>"@
        + user_rows_upto(c.users@, c.users@.len() as int)
        + "</div><div class=\"pane\"><div class=\"header\">Chat!</div><div class=\"log\">"@
        + typing_bubble(c.is_typing)
        + message_rows_upto(c.users@, c.messages@, c.messages@.len() as int)
        + "</div><div class=\"input-bar\"><input name=\"message\" placeholder=\"Message\"/><button class=\"submit\">Send</button></div></div></div>"@
}

/// Render idempotence: the projection is a pure function of the view state,
/// so two renders of the same state produce identical markup.
pub proof fn lemma_render_idempotent(a: Chat, b: Chat)
    requires
        a == b,
    ensures
        render_view(a) == render_view(b),
{
}

/// Appends one sidebar row.
fn push_user_row(out: &mut String, u: &UserProfile)
    ensures
        final(out)@ == old(out)@ + user_row(*u),
{
    out.append("<div class=\"user-row\"><img class=\"avatar\" src=\"");
    push_html_escaped(out, u.avatar.as_str());
    out.append("\" alt=\"avatar\"/><div class=\"user-name\">");
    push_html_escaped(out, u.name.as_str());
    out.append("</div><div class=\"user-note\">Hi there!</div></div>");
    assert(out@ =~= old(out)@ + user_row(*u));
}

/// Appends one message bubble.
fn push_message_row(out: &mut String, users: &Vec<UserProfile>, m: &ChatMessage)
    ensures
        final(out)@ == old(out)@ + message_row(users@, *m),
{
    out.append("<div class=\"message\"><img class=\"avatar\" src=\"");
    let avatar = resolve_avatar(users, m.from.as_str());
    push_html_escaped(out, avatar.as_str());
    out.append("\" alt=\"avatar\"/><div class=\"from\">");
    push_html_escaped(out, m.from.as_str());
    out.append("</div><div class=\"text\">");
    if gif_ref(m.message.as_str()) {
        out.append("<img class=\"gif\" src=\"");
        push_html_escaped(out, m.message.as_str());
        out.append("\"/>");
    } else {
        push_html_escaped(out, m.message.as_str());
    }
    out.append("</div></div>");
    assert(out@ =~= old(out)@ + message_row(users@, *m));
}

impl Chat {
    /// The render projection: the markup for this state, exactly
    /// [`render_view`]. Pure: it reads the state and builds a string, so
    /// repeated calls on one state return identical markup.
    pub fn view(&self) -> (r: String)
        ensures
            r@ == render_view(*self),
    {
        let mut out = String::new();
        out.append("<div class=\"chat\"><div class=\"sidebar\"><div class=\"title\">Users</div>");

        let ghost s0 = out@;
        let n = self.users.len();
        let mut i: usize = 0;
        while i < n
            invariant
                n == self.users@.len(),
                0 <= i <= n,
                out@ == s0 + user_rows_upto(self.users@, i as int),
            decreases n - i,
        {
            push_user_row(&mut out, &self.users[i]);
            i = i + 1;
        }

        out.append("</div><div class=\"pane\"><div class=\"header\">Chat!</div><div class=\"log\">");
        if self.is_typing {
            out.append("<div class=\"typing\">...</div>");
        }

        let ghost s1 = out@;
        let m = self.messages.len();
        let mut j: usize = 0;
        while j < m
            invariant
                m == self.messages@.len(),
                0 <= j <= m,
                out@ == s1 + message_rows_upto(self.users@, self.messages@, j as int),
            decreases m - j,
        {
            push_message_row(&mut out, &self.users, &self.messages[j]);
            j = j + 1;
        }

        out.append(
            "</div><div class=\"input-bar\"><input name=\"message\" placeholder=\"Message\"/><button class=\"submit\">Send</button></div></div></div>",
        );
        assert(out@ =~= render_view(*self));
        out
    }
}

} // verus!
