//! The view state and its transition function.
//!
//! A [`Chat`] holds the roster of users, the accumulated message log and the
//! local typing flag. Every state change goes through [`Chat::update`],
//! which takes one event ([`Msg`]) and returns the effects the host must
//! perform: whether to re-render, what to send on the transport, and
//! whether to clear the input field.

use vstd::prelude::*;
use crate::codec::{
    chat_text_view, decode, decode_chat, decoded_text_view, encode, encode_view, ChatMessage,
    DecodeError, Envelope, EnvelopeView,
};
use crate::text::blank;
use crate::text::is_blank;

verus! {

/// One event of the view: an inbound wire message, a press of the submit
/// control carrying the input field's current text, or a change of that
/// text.
#[derive(Clone, Debug, PartialEq, Eq)]
pub enum Msg {
    /// Raw wire text delivered by the event relay.
    HandleMsg(String),
    /// The submit control was pressed; carries the input field's value.
    SubmitMessage(String),
    /// The input field's value changed to the carried text.
    TypingChanged(String),
}

/// What the host must do after a transition: re-render, send a pre-encoded
/// envelope over the transport, or clear the input field.
#[derive(Clone, Debug, PartialEq, Eq)]
pub struct Effect {
    pub render: bool,
    pub outbound: Option<String>,
    pub clear_input: bool,
}

/// One row of the user sidebar: a name and its avatar URL.
#[derive(Clone, Debug, PartialEq, Eq)]
pub struct UserProfile {
    pub name: String,
    pub avatar: String,
}

/// The chat view state: the roster, the message log in arrival order, and
/// the local typing flag.
pub struct Chat {
    pub users: Vec<UserProfile>,
    pub messages: Vec<ChatMessage>,
    pub is_typing: bool,
}

/// The avatar URL derived from a user name: the fixed avatar-service
/// template with the name substituted verbatim.
pub open spec fn avatar_url(name: Seq<char>) -> Seq<char> {
    "https://avatars.dicebear.com/api/adventurer-neutral/"@ + name + ".svg"@
}

/// Derives the avatar URL for a user name.
pub fn avatar_for(name: &str) -> (r: String)
    ensures
        r@ == avatar_url(name@),
{
    let mut out = String::new();
    out.append("https://avatars.dicebear.com/api/adventurer-neutral/");
    out.append(name);
    out.append(".svg");
    assert(out@ =~= avatar_url(name@));
    out
}

/// `users` is the roster derived from `names`: one profile per name, in the
/// same order, each with the avatar URL derived from its name.
pub open spec fn is_roster_of(users: Seq<UserProfile>, names: Seq<Seq<char>>) -> bool {
    &&& users.len() == names.len()
    &&& forall|i: int|
        0 <= i < names.len() ==> (#[trigger] users[i]).name@ == names[i] && users[i].avatar@
            == avatar_url(names[i])
}

/// Builds the roster for a list of names.
pub fn roster_from(names: &Vec<String>) -> (users: Vec<UserProfile>)
    ensures
        is_roster_of(users@, names.deep_view()),
{
    let mut users: Vec<UserProfile> = Vec::new();
    let n = names.len();
    let mut i: usize = 0;
    while i < n
        invariant
            n == names@.len(),
            names.deep_view().len() == n,
            forall|j: int| 0 <= j < n ==> names.deep_view()[j] == names@[j]@,
            0 <= i <= n,
            users@.len() == i,
            forall|j: int|
                0 <= j < i ==> (#[trigger] users@[j]).name@ == names@[j]@ && users@[j].avatar@
                    == avatar_url(names@[j]@),
        decreases n - i,
    {
        let name = names[i].clone();
        let avatar = avatar_for(name.as_str());
        users.push(UserProfile { name, avatar });
        i = i + 1;
    }
    users
}

/// The typing flag after the input text becomes `t`: set exactly while the
/// trimmed text is non-empty.
pub open spec fn typing_after(t: Seq<char>) -> bool {
    !blank(t)
}

/// Whether a change of the input text to `t` re-renders: only when it moves
/// the typing flag across the typing/non-typing boundary.
pub open spec fn typing_render(prev: bool, t: Seq<char>) -> bool {
    typing_after(t) != prev
}

/// Typing boundary: a non-blank input turns the indicator on, a blank one
/// turns it off, and each of the two flips re-renders; a further non-blank
/// input while the indicator is already on changes nothing and re-renders
/// nothing.
pub proof fn lemma_typing_boundary(t1: Seq<char>, t2: Seq<char>)
    requires
        !blank(t1),
        blank(t2),
    ensures
        typing_after(t1),
        typing_render(false, t1),
        !typing_after(t2),
        typing_render(true, t2),
        !typing_render(true, t1),
{
}

impl Chat {
    /// Creates the view: an empty state, and the `Register` envelope for
    /// the local user's name, already encoded for the transport.
    pub fn create(username: &str) -> (r: (Chat, String))
        ensures
            r.0.users@.len() == 0,
            r.0.messages@.len() == 0,
            !r.0.is_typing,
            r.1@ == encode_view(EnvelopeView::Register { name: username@ }),
    {
        let chat = Chat { users: Vec::new(), messages: Vec::new(), is_typing: false };
        let register = encode(&Envelope::Register { name: username.to_owned() });
        (chat, register)
    }

    /// Replaces the roster with the profiles derived from `names`;
    /// re-renders.
    pub fn apply_roster(&mut self, names: &Vec<String>) -> (render: bool)
        ensures
            is_roster_of(final(self).users@, names.deep_view()),
            final(self).messages == old(self).messages,
            final(self).is_typing == old(self).is_typing,
            render,
    {
        self.users = roster_from(names);
        true
    }

    /// Appends one parsed chat line to the log, or leaves the state
    /// unchanged when the payload did not parse; re-renders exactly when a
    /// line was appended.
    pub fn apply_chat_message(&mut self, parsed: Option<ChatMessage>) -> (render: bool)
        ensures
            final(self).users == old(self).users,
            final(self).is_typing == old(self).is_typing,
            match parsed {
                Option::Some(m) => final(self).messages@ == old(self).messages@.push(m) && render,
                Option::None => *final(self) == *old(self) && !render,
            },
    {
        match parsed {
            Some(m) => {
                self.messages.push(m);
                true
            }
            None => false,
        }
    }

    /// Applies one decoded envelope: `Users` replaces the roster, `Message`
    /// parses its payload and appends the line (or discards a malformed
    /// one), and an inbound `Register` is a no-op. The typing flag never
    /// changes; the result says whether to re-render.
    pub fn apply_envelope(&mut self, env: &Envelope) -> (render: bool)
        ensures
            final(self).is_typing == old(self).is_typing,
            env matches Envelope::Users { names } ==> is_roster_of(
                final(self).users@,
                names.deep_view(),
            ) && final(self).messages == old(self).messages && render,
            env matches Envelope::Register { .. } ==> *final(self) == *old(self) && !render,
            env matches Envelope::Message { payload } ==> final(self).users == old(self).users
                && (match chat_text_view(payload@) {
                    Option::Some(mv) => old(self).messages@.is_prefix_of(final(self).messages@)
                        && final(self).messages@.len() == old(self).messages@.len() + 1
                        && final(self).messages@.last()@ == mv && render,
                    Option::None => *final(self) == *old(self) && !render,
                }),
    {
        match env {
            Envelope::Users { names } => self.apply_roster(names),
            Envelope::Register { .. } => false,
            Envelope::Message { payload } => {
                let parsed = decode_chat(payload.as_str());
                let render = self.apply_chat_message(parsed);
                assert(old(self).messages@.is_prefix_of(self.messages@)) by {
                    assert(old(self).messages@ =~= self.messages@.take(
                        old(self).messages@.len() as int,
                    ));
                }
                render
            }
        }
    }

    /// The transition function: applies one event to the state and returns
    /// the effects the host must perform.
    ///
    /// An inbound message is decoded and applied; a decode failure is
    /// returned and leaves the state unchanged. A submit with blank input
    /// is a no-op; any other submit sends the raw text as a `Message`
    /// envelope, clears the input and resets the typing flag. An input
    /// change moves the typing flag and re-renders only across the
    /// typing/non-typing boundary.
    pub fn update(&mut self, msg: Msg) -> (r: Result<Effect, DecodeError>)
        ensures
            msg matches Msg::TypingChanged(t) ==> final(self).users == old(self).users
                && final(self).messages == old(self).messages
                && final(self).is_typing == typing_after(t@)
                && (r matches Ok(eff) && eff.render == typing_render(old(self).is_typing, t@)
                    && eff.outbound is None && !eff.clear_input),
            msg matches Msg::SubmitMessage(t) ==> (if blank(t@) {
                *final(self) == *old(self) && (r matches Ok(eff) && !eff.render
                    && eff.outbound is None && !eff.clear_input)
            } else {
                final(self).users == old(self).users && final(self).messages == old(self).messages
                    && !final(self).is_typing && (r matches Ok(eff) && eff.render
                    && eff.clear_input && (eff.outbound matches Some(s) && s@ == encode_view(
                    EnvelopeView::Message { payload: t@ },
                )))
            }),
            msg matches Msg::HandleMsg(raw) ==> final(self).is_typing == old(self).is_typing
                && old(self).messages@.is_prefix_of(final(self).messages@)
                && (match decoded_text_view(raw@) {
                    Result::Err(e) => r == Result::<Effect, DecodeError>::Err(e) && *final(self)
                        == *old(self),
                    Result::Ok(ev) => (r matches Ok(eff) && eff.outbound is None
                        && !eff.clear_input && (match ev {
                        EnvelopeView::Users { names } => is_roster_of(final(self).users@, names)
                            && final(self).messages == old(self).messages && eff.render,
                        EnvelopeView::Register { .. } => *final(self) == *old(self)
                            && !eff.render,
                        EnvelopeView::Message { payload } => final(self).users == old(self).users
                            && (match chat_text_view(payload) {
                            Option::Some(mv) => final(self).messages@.len() == old(
                                self,
                            ).messages@.len() + 1 && final(self).messages@.last()@ == mv
                                && eff.render,
                            Option::None => *final(self) == *old(self) && !eff.render,
                        }),
                    })),
                }),
    {
        match msg {
            Msg::HandleMsg(raw) => match decode(raw.as_str()) {
                Ok(env) => {
                    let render = self.apply_envelope(&env);
                    proof {
                        if env is Users || env is Register {
                            assert(old(self).messages@ =~= self.messages@.take(
                                old(self).messages@.len() as int,
                            ));
                        }
                    }
                    Ok(Effect { render, outbound: None, clear_input: false })
                }
                Err(e) => Err(e),
            },
            Msg::SubmitMessage(text) => {
                if is_blank(text.as_str()) {
                    Ok(Effect { render: false, outbound: None, clear_input: false })
                } else {
                    let out = encode(&Envelope::Message { payload: text });
                    self.is_typing = false;
                    Ok(Effect { render: true, outbound: Some(out), clear_input: true })
                }
            }
            Msg::TypingChanged(text) => {
                let typing = !is_blank(text.as_str());
                if typing != self.is_typing {
                    self.is_typing = typing;
                    Ok(Effect { render: true, outbound: None, clear_input: false })
                } else {
                    Ok(Effect { render: false, outbound: None, clear_input: false })
                }
            }
        }
    }
}

} // verus!
