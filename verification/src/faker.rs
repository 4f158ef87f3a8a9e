//! The faker plugin contract and the table of registered fakers.
//!
//! A faker emulates or drives an external system. The table is filled once,
//! before any scenario runs, and only read afterwards. Where two descriptors
//! share a name, the one registered first is the one every lookup finds.

use vstd::prelude::*;
use crate::text::str_eq;

verus! {

/// Why a plugin refuses its parameters.
#[derive(Debug, Clone, Copy, PartialEq, Eq, Structural)]
pub enum ParamError {
    /// No broker address was given.
    BrokersEmpty,
    /// A producer was given no message to send.
    MessagesEmpty,
    /// A message lacks its topic or its payload.
    TopicOrMessageEmpty,
    /// A consumer was given no topic to subscribe to.
    TopicsEmpty,
    /// A comparison lacks the path of the expected file.
    ExpectedEmpty,
    /// A comparison lacks the path of the actual file.
    ActualEmpty,
    /// An option has a text for its value but none for its key.
    OptionKeyNotText,
}

impl ParamError {
    /// The sentence that states the fault.
    pub open spec fn text(self) -> Seq<char> {
        match self {
            ParamError::BrokersEmpty => "brokers cannot be empty"@,
            ParamError::MessagesEmpty => "messages cannot be empty"@,
            ParamError::TopicOrMessageEmpty => "Topic or message must not be empty!"@,
            ParamError::TopicsEmpty => "topics cannot be empty"@,
            ParamError::ExpectedEmpty => "expected cannot be empty"@,
            ParamError::ActualEmpty => "actual cannot be empty"@,
            ParamError::OptionKeyNotText => "option keys must be strings"@,
        }
    }

    /// States the fault in words, for logs.
    pub fn message(self) -> (text: &'static str)
        ensures
            text@ == self.text(),
    {
        match self {
            ParamError::BrokersEmpty => "brokers cannot be empty",
            ParamError::MessagesEmpty => "messages cannot be empty",
            ParamError::TopicOrMessageEmpty => "Topic or message must not be empty!",
            ParamError::TopicsEmpty => "topics cannot be empty",
            ParamError::ExpectedEmpty => "expected cannot be empty",
            ParamError::ActualEmpty => "actual cannot be empty",
            ParamError::OptionKeyNotText => "option keys must be strings",
        }
    }
}

/// What every faker offers: a check of its parameters that touches nothing,
/// and a body that is started with both halves of the termination bus.
pub trait FakerMod {
    /// What `func` hands back: the work still to be driven by the caller.
    type Future;

    /// Checks the parameters; must be called, and succeed, before `func`.
    fn validate_params(&self) -> Result<(), ParamError>;

    /// Starts the faker. It may publish `true` on `tx` to ask for the end of
    /// the whole scenario.
    fn func(
        &self,
        tx: tokio::sync::broadcast::Sender<bool>,
        rx: tokio::sync::broadcast::Receiver<bool>,
    ) -> Self::Future;
}

/// A registered faker: its name and the entry point that starts it.
pub struct Faker<F> {
    pub name: &'static str,
    pub func: F,
}

/// The names of a table's descriptors, in registration order.
pub open spec fn names<F>(table: Seq<Faker<F>>) -> Seq<Seq<char>> {
    Seq::new(table.len(), |i: int| table[i].name@)
}

/// Whether `found` is what looking `name` up among `names` gives: the first
/// position that holds the name, or nothing when no position does.
pub open spec fn resolves_to(names: Seq<Seq<char>>, name: Seq<char>, found: Option<usize>) -> bool {
    match found {
        Some(i) => {
            &&& i < names.len()
            &&& names[i as int] == name
            &&& forall|j: int| 0 <= j < i ==> names[j] != name
        },
        None => forall|j: int| 0 <= j < names.len() ==> names[j] != name,
    }
}

/// The position that a lookup of `name` among `names` finds.
pub open spec fn resolve(names: Seq<Seq<char>>, name: Seq<char>) -> Option<usize> {
    if exists|i: usize| resolves_to(names, name, Some(i)) {
        Some(choose|i: usize| resolves_to(names, name, Some(i)))
    } else {
        None
    }
}

/// A lookup has one answer: whatever satisfies `resolves_to` is `resolve`.
pub proof fn resolve_unique(names: Seq<Seq<char>>, name: Seq<char>, found: Option<usize>)
    requires
        resolves_to(names, name, found),
    ensures
        resolve(names, name) == found,
{
    match found {
        Some(i) => {
            let k = choose|k: usize| resolves_to(names, name, Some(k));
            assert(resolves_to(names, name, Some(k)));
            if k < i {
                assert(names[k as int] != name);
            } else if i < k {
                assert(names[i as int] != name);
            }
        },
        None => {
            if exists|i: usize| resolves_to(names, name, Some(i)) {
                let k = choose|k: usize| resolves_to(names, name, Some(k));
                assert(names[k as int] != name);
            }
        },
    }
}

/// Appends a descriptor to the table. Meant for process start, before the
/// first lookup.
pub fn register<F>(table: &mut Vec<Faker<F>>, name: &'static str, func: F)
    ensures
        final(table)@ == old(table)@.push(Faker { name, func }),
{
    table.push(Faker { name, func });
}

/// The position of the faker called `name`: exact match, case-sensitive.
pub fn find_faker<F>(table: &Vec<Faker<F>>, name: &str) -> (found: Option<usize>)
    ensures
        found == resolve(names(table@), name@),
{
    let mut i: usize = 0;
    while i < table.len()
        invariant
            i <= table.len(),
            forall|j: int| 0 <= j < i ==> names(table@)[j] != name@,
        decreases table.len() - i,
    {
        if str_eq(table[i].name, name) {
            proof {
                resolve_unique(names(table@), name@, Some(i));
            }
            return Some(i);
        }
        i = i + 1;
    }
    proof {
        resolve_unique(names(table@), name@, None);
    }
    None
}

/// The faker called `name`, or nothing if none is registered under it.
pub fn get_faker<'a, F>(table: &'a Vec<Faker<F>>, name: &str) -> (found: Option<&'a Faker<F>>)
    ensures
        match resolve(names(table@), name@) {
            Some(i) => found == Some(&table@[i as int]),
            None => found is None,
        },
{
    match find_faker(table, name) {
        Some(i) => {
            proof {
                assert(names(table@).len() == table.len());
                resolve_is_found(names(table@), name@);
            }
            Some(&table[i])
        },
        None => None,
    }
}

/// What `resolve` returns satisfies `resolves_to`.
pub proof fn resolve_is_found(names: Seq<Seq<char>>, name: Seq<char>)
    requires
        names.len() <= usize::MAX,
    ensures
        resolves_to(names, name, resolve(names, name)),
{
    if exists|i: usize| resolves_to(names, name, Some(i)) {
    } else {
        assert forall|j: int| 0 <= j < names.len() implies names[j] != name by {
            if names[j] == name {
                first_match(names, name, j);
            }
        }
    }
}

/// Where some position holds the name, a first such position exists.
proof fn first_match(names: Seq<Seq<char>>, name: Seq<char>, j: int)
    requires
        0 <= j < names.len(),
        names[j] == name,
        names.len() <= usize::MAX,
    ensures
        exists|i: usize| resolves_to(names, name, Some(i)),
    decreases j,
{
    if exists|k: int| 0 <= k < j && names[k] == name {
        let k = choose|k: int| 0 <= k < j && names[k] == name;
        first_match(names, name, k);
    } else {
        assert(resolves_to(names, name, Some(j as usize)));
    }
}

/// Every registered name, in registration order.
pub fn get_faker_names<F>(table: &Vec<Faker<F>>) -> (listed: Vec<&'static str>)
    ensures
        listed@.len() == table@.len(),
        forall|i: int| 0 <= i < listed@.len() ==> listed@[i]@ == #[trigger] table@[i].name@,
{
    let mut listed: Vec<&'static str> = Vec::new();
    let mut i: usize = 0;
    while i < table.len()
        invariant
            i <= table.len(),
            listed@.len() == i,
            forall|k: int| 0 <= k < i ==> listed@[k]@ == #[trigger] table@[k].name@,
        decreases table.len() - i,
    {
        listed.push(table[i].name);
        i = i + 1;
    }
    listed
}

/// The first registration wins: registering one more descriptor changes no
/// lookup that already found something, and lets the lookups of the new name
/// that found nothing find the newcomer.
pub proof fn register_keeps_earlier(names: Seq<Seq<char>>, added: Seq<char>, name: Seq<char>)
    requires
        names.len() < usize::MAX,
    ensures
        resolve(names.push(added), name) == (match resolve(names, name) {
            Some(i) => Some(i),
            None => if added == name {
                Some(names.len() as usize)
            } else {
                None
            },
        }),
{
    resolve_is_found(names, name);
    let after = names.push(added);
    match resolve(names, name) {
        Some(i) => {
            assert(after[i as int] == names[i as int]);
            assert forall|j: int| 0 <= j < i implies after[j] != name by {
                assert(after[j] == names[j]);
            }
            resolve_unique(after, name, Some(i));
        },
        None => {
            assert forall|j: int| 0 <= j < names.len() implies after[j] != name by {
                assert(after[j] == names[j]);
            }
            if added == name {
                resolve_unique(after, name, Some(names.len() as usize));
            } else {
                resolve_unique(after, name, None);
            }
        },
    }
}

} // verus!
