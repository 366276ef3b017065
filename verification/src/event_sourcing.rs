//! An ordered batch of commands.
//!
//! A freshly produced command list and a batch assembled for application are the same value: an
//! ordered list of commands. The transaction boundary is the call that applies them, not a
//! separate type.
use vstd::prelude::*;

verus! {

/// An ordered batch of commands.
#[derive(Debug, PartialEq)]
pub struct Transaction<Command> {
    commands: Vec<Command>,
}

impl<Command> View for Transaction<Command> {
    type V = Seq<Command>;

    closed spec fn view(&self) -> Seq<Command> {
        self.commands@
    }
}

impl<Command> From<Vec<Command>> for Transaction<Command> {
    fn from(commands: Vec<Command>) -> (t: Transaction<Command>)
        ensures
            t@ == commands@,
    {
        Transaction { commands }
    }
}

impl<Command> vstd::std_specs::convert::FromSpecImpl<Vec<Command>> for Transaction<Command> {
    open spec fn obeys_from_spec() -> bool {
        true
    }

    closed spec fn from_spec(v: Vec<Command>) -> Transaction<Command> {
        Transaction { commands: v }
    }
}

impl<Command> Transaction<Command> {
    /// The transaction without commands.
    pub fn none() -> (t: Self)
        ensures
            t@ == Seq::<Command>::empty(),
    {
        Transaction { commands: Vec::new() }
    }

    /// The transaction of one command.
    pub fn single(command: Command) -> (t: Self)
        ensures
            t@ == seq![command],
    {
        let mut commands = Vec::new();
        commands.push(command);
        Transaction { commands }
    }

    pub fn is_none(&self) -> (r: bool)
        ensures
            r == (self@.len() == 0),
    {
        self.commands.len() == 0
    }

    /// Each command mapped by `f`, in order.
    pub fn map<Mapped, F: Fn(Command) -> Mapped>(self, f: F) -> (r: Transaction<Mapped>)
        requires
            forall|i: int| 0 <= i < self@.len() ==> f.requires((self@[i],)),
        ensures
            r@.len() == self@.len(),
            forall|i: int| 0 <= i < self@.len() ==> f.ensures((self@[i],), #[trigger] r@[i]),
    {
        let ghost original = self@;
        let mut commands = self.commands;
        let mut reversed: Vec<Command> = Vec::new();
        while commands.len() > 0
            invariant
                commands@.len() + reversed@.len() == original.len(),
                forall|i: int| 0 <= i < commands@.len() ==> commands@[i] == original[i],
                forall|i: int|
                    0 <= i < reversed@.len() ==> reversed@[i] == original[original.len() - 1 - i],
            decreases commands@.len(),
        {
            let c = commands.pop().unwrap();
            reversed.push(c);
        }
        let mut mapped: Vec<Mapped> = Vec::new();
        let n = reversed.len();
        while reversed.len() > 0
            invariant
                n == original.len(),
                reversed@.len() + mapped@.len() == n,
                forall|i: int| 0 <= i < reversed@.len() ==> reversed@[i] == original[n - 1 - i],
                forall|i: int| 0 <= i < original.len() ==> f.requires((original[i],)),
                forall|i: int| 0 <= i < mapped@.len() ==> f.ensures((original[i],), #[trigger] mapped@[i]),
            decreases reversed@.len(),
        {
            let c = reversed.pop().unwrap();
            let m = f(c);
            mapped.push(m);
        }
        Transaction { commands: mapped }
    }

    /// Append one command.
    pub fn push(&mut self, command: Command)
        ensures
            final(self)@ == old(self)@.push(command),
    {
        self.commands.push(command);
    }

    /// Append all commands of `other`, in order.
    pub fn append(&mut self, other: Transaction<Command>)
        ensures
            final(self)@ == old(self)@ + other@,
    {
        let mut other = other;
        self.commands.append(&mut other.commands);
    }

    /// This transaction followed by `other`.
    pub fn then(self, other: Transaction<Command>) -> (r: Self)
        ensures
            r@ == self@ + other@,
    {
        let mut r = self;
        r.append(other);
        r
    }

    pub fn into_vec(self) -> (r: Vec<Command>)
        ensures
            r@ == self@,
    {
        self.commands
    }
}

} // verus!
