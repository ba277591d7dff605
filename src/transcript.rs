//! The conversation transcript: role-tagged messages in conversation order.
use vstd::prelude::*;
use vstd::string::StringExecFns;

verus! {

/// Who a message comes from.
#[derive(Clone, Copy, Debug, PartialEq, Eq, Structural)]
pub enum Role {
    System,
    User,
    Assistant,
}

impl Role {
    /// The role's name on the wire.
    pub fn name(&self) -> (r: &'static str)
        ensures
            r@ == role_name(*self),
    {
        match self {
            Role::System => "system",
            Role::User => "user",
            Role::Assistant => "assistant",
        }
    }
}

pub open spec fn role_name(role: Role) -> Seq<char> {
    match role {
        Role::System => "system"@,
        Role::User => "user"@,
        Role::Assistant => "assistant"@,
    }
}

/// One message of a conversation.
#[derive(Debug)]
pub struct Message {
    pub role: Role,
    pub content: String,
}

impl View for Message {
    type V = (Role, Seq<char>);

    open spec fn view(&self) -> (Role, Seq<char>) {
        (self.role, self.content@)
    }
}

/// An append-only, ordered sequence of messages.
#[derive(Debug)]
pub struct Transcript {
    messages: Vec<Message>,
}

impl View for Transcript {
    type V = Seq<(Role, Seq<char>)>;

    closed spec fn view(&self) -> Seq<(Role, Seq<char>)> {
        self.messages@.map_values(|m: Message| m@)
    }
}

impl Transcript {
    pub fn new() -> (r: Transcript)
        ensures
            r@ == Seq::<(Role, Seq<char>)>::empty(),
    {
        let r = Transcript { messages: Vec::new() };
        proof {
            assert(r@ =~= Seq::<(Role, Seq<char>)>::empty());
        }
        r
    }

    pub fn len(&self) -> (r: usize)
        ensures
            r == self@.len(),
    {
        self.messages.len()
    }

    /// The message at `i`, in conversation order.
    pub fn message(&self, i: usize) -> (r: &Message)
        requires
            i < self@.len(),
        ensures
            r@ == self@[i as int],
    {
        &self.messages[i]
    }

    /// Appends one message; its content is taken as it is.
    pub fn append(&mut self, role: Role, content: &str)
        ensures
            final(self)@ == old(self)@.push((role, content@)),
    {
        let m = Message { role, content: String::from_str(content) };
        self.messages.push(m);
        proof {
            assert(final(self)@ =~= old(self)@.push((role, content@)));
        }
    }

    pub fn add_user_message(&mut self, content: &str)
        ensures
            final(self)@ == old(self)@.push((Role::User, content@)),
    {
        self.append(Role::User, content);
    }

    pub fn add_assistant_message(&mut self, content: &str)
        ensures
            final(self)@ == old(self)@.push((Role::Assistant, content@)),
    {
        self.append(Role::Assistant, content);
    }

    pub fn add_system_message(&mut self, content: &str)
        ensures
            final(self)@ == old(self)@.push((Role::System, content@)),
    {
        self.append(Role::System, content);
    }
}

} // verus!
