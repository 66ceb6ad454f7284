//! The people who share a ledger, and the side each one signed up for.

use vstd::prelude::*;
use vstd::string::*;

verus! {

/// The side of the ledger a participant signed up for.
#[derive(Clone, Copy, Debug, PartialEq, Eq, Structural)]
pub enum Role {
    Adder,
    Subtractor,
}

/// How a role reads in text.
pub open spec fn role_text(role: Role) -> Seq<char> {
    match role {
        Role::Adder => "Adder"@,
        Role::Subtractor => "Subtractor"@,
    }
}

impl Role {
    /// The role's name.
    pub fn to_string(&self) -> (s: String)
        ensures
            s@ == role_text(*self),
    {
        match self {
            Role::Adder => String::from_str("Adder"),
            Role::Subtractor => String::from_str("Subtractor"),
        }
    }
}

/// A participant: a stable identity, a display name and a role.
#[derive(Debug)]
pub struct Client {
    pub code: String,
    pub name: String,
    pub role: Role,
}

/// What a `Client` is, as plain values.
pub struct ClientView {
    pub code: Seq<char>,
    pub name: Seq<char>,
    pub role: Role,
}

impl View for Client {
    type V = ClientView;

    open spec fn view(&self) -> ClientView {
        ClientView { code: self.code@, name: self.name@, role: self.role }
    }
}

/// The views of a list of clients, in order.
pub open spec fn client_views(clients: Seq<Client>) -> Seq<ClientView> {
    Seq::new(clients.len(), |i: int| clients[i]@)
}

/// The client that stands where no participant is known: empty code,
/// empty name, role `Adder`.
pub open spec fn nobody() -> ClientView {
    ClientView { code: Seq::<char>::empty(), name: Seq::<char>::empty(), role: Role::Adder }
}

/// How a participant reads in text: the name, a bar, the role.
pub open spec fn client_text(c: ClientView) -> Seq<char> {
    c.name + " | "@ + role_text(c.role)
}

/// One line of text for each client, in order.
pub open spec fn client_lines(clients: Seq<ClientView>) -> Seq<Seq<char>> {
    Seq::new(clients.len(), |i: int| client_text(clients[i]))
}

impl Client {
    /// A participant with the given identity, name and role.
    pub fn new(code: &str, name: &str, role: Role) -> (c: Self)
        ensures
            c@ == (ClientView { code: code@, name: name@, role }),
    {
        Self { code: String::from_str(code), name: String::from_str(name), role }
    }

    /// The name, a bar, and the role.
    pub fn to_string(&self) -> (s: String)
        ensures
            s@ == client_text(self@),
    {
        let mut s = self.name.clone();
        s.append(" | ");
        let role = self.role.to_string();
        s.append(role.as_str());
        s
    }
}

impl Clone for Client {
    fn clone(&self) -> (c: Self)
        ensures
            c@ == self@,
    {
        Self { code: self.code.clone(), name: self.name.clone(), role: self.role }
    }
}

impl Default for Client {
    fn default() -> (c: Self)
        ensures
            c@ == nobody(),
    {
        Self { code: String::new(), name: String::new(), role: Role::Adder }
    }
}

} // verus!
