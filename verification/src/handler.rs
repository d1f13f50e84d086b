//! Handler registry: named, enable/disable-able plugin bundles of handler
//! descriptors, collected once at startup into the ordered list the router
//! matches against.

use vstd::prelude::*;

use crate::pattern::compiled_command;

verus! {

/// The two classifications of inbound events a handler can subscribe to.
#[derive(Clone, Copy, PartialEq, Eq, Structural, Debug)]
pub enum EventKind {
    Message,
    Callback,
}

/// Options attached to a handler at registration.
#[derive(Clone, Debug)]
pub struct HandlerOptions {
    pub is_command: bool,
    pub description: Option<String>,
    pub hide: bool,
}

impl Default for HandlerOptions {
    /// Not a command, no description, hidden from the command list.
    fn default() -> (r: Self)
        ensures
            !r.is_command,
            r.description is None,
            r.hide,
    {
        HandlerOptions { is_command: false, description: None, hide: true }
    }
}

/// A handler descriptor: the event kind it subscribes to, the identifier of
/// the action to invoke, the declared pattern source, and its options.
/// Immutable once registered.
pub struct Handler {
    pub update_type: EventKind,
    pub function: u64,
    pub pattern: String,
    pub options: Option<HandlerOptions>,
}

impl Handler {
    /// Whether the pattern is a command pattern; absent options default to
    /// not-a-command.
    pub open spec fn is_command_spec(&self) -> bool {
        match self.options {
            Some(o) => o.is_command,
            None => false,
        }
    }

    /// Exec mirror of `is_command_spec`.
    pub fn is_command(&self) -> (r: bool)
        ensures
            r == self.is_command_spec(),
    {
        match &self.options {
            Some(o) => o.is_command,
            None => false,
        }
    }
}

/// The pattern source actually handed to the regex engine for one handler:
/// command patterns are rewritten for the prefix set and bot username, other
/// patterns are used verbatim.
pub open spec fn effective_source(
    h: Handler,
    prefixes: Seq<char>,
    username: Option<Seq<char>>,
) -> Seq<char> {
    if h.is_command_spec() {
        compiled_command(h.pattern@, prefixes, username)
    } else {
        h.pattern@
    }
}

/// One plugin's bundle of handlers, built at startup by appending
/// descriptors; a disabled bundle contributes nothing to the registry.
pub struct Register {
    pub name: String,
    pub enabled: bool,
    pub handler_list: Vec<Handler>,
}

impl Register {
    pub fn new() -> (r: Self)
        ensures
            r.name@ == "undefined"@,
            !r.enabled,
            r.handler_list@ =~= Seq::<Handler>::empty(),
    {
        Register { name: "undefined".to_owned(), enabled: false, handler_list: Vec::new() }
    }

    pub fn build(self) -> (r: Self)
        ensures
            r == self,
    {
        self
    }

    pub fn append(
        self,
        update_type: EventKind,
        function: u64,
        pattern: String,
        options: Option<HandlerOptions>,
    ) -> (r: Self)
        ensures
            r.name == self.name,
            r.enabled == self.enabled,
            r.handler_list@ == self.handler_list@.push(
                Handler { update_type, function, pattern, options },
            ),
    {
        let mut this = self;
        let handler = Handler { update_type, function, pattern, options };
        this.handler_list.push(handler);
        this
    }

    pub fn remove(self, index: usize) -> (r: Self)
        requires
            index < self.handler_list@.len(),
        ensures
            r.name == self.name,
            r.enabled == self.enabled,
            r.handler_list@ == self.handler_list@.remove(index as int),
    {
        let mut this = self;
        this.handler_list.remove(index);
        this
    }

    pub fn set_name(self, name: String) -> (r: Self)
        ensures
            r.name == name,
            r.enabled == self.enabled,
            r.handler_list == self.handler_list,
    {
        let mut this = self;
        this.name = name;
        this
    }

    pub fn set_enabled(self, enabled: bool) -> (r: Self)
        ensures
            r.name == self.name,
            r.enabled == enabled,
            r.handler_list == self.handler_list,
    {
        let mut this = self;
        this.enabled = enabled;
        this
    }

    pub fn is_enabled(&self) -> (r: bool)
        ensures
            r == self.enabled,
    {
        self.enabled
    }

    pub fn get_name(&self) -> (r: &String)
        ensures
            r == &self.name,
    {
        &self.name
    }

    pub fn get_handler_list(self) -> (r: Vec<Handler>)
        ensures
            r == self.handler_list,
    {
        self.handler_list
    }
}

/// Appends an enabled bundle's handlers, in bundle order, to the
/// process-wide list; a disabled bundle contributes nothing.
fn append_bundle(handler_list: &mut Vec<Handler>, bundle: Register)
    ensures
        bundle.enabled ==> final(handler_list)@ == old(handler_list)@ + bundle.handler_list@,
        !bundle.enabled ==> final(handler_list)@ == old(handler_list)@,
{
    let ghost all = bundle.handler_list@;
    if bundle.is_enabled() {
        let mut hs = bundle.get_handler_list();
        proof {
            assert(old(handler_list)@ + all.take(0) =~= old(handler_list)@);
            assert(all.skip(0) =~= all);
        }
        let ghost k: int = 0;
        while hs.len() > 0
            invariant
                0 <= k <= all.len(),
                handler_list@ == old(handler_list)@ + all.take(k),
                hs@ == all.skip(k),
            decreases hs@.len(),
        {
            let h = hs.remove(0);
            proof {
                assert(h == all[k]);
                assert(all.skip(k).remove(0) =~= all.skip(k + 1));
                assert(old(handler_list)@ + all.take(k + 1) =~= (old(handler_list)@ + all.take(k)).push(
                    all[k],
                ));
            }
            handler_list.push(h);
            proof {
                k = k + 1;
            }
        }
        proof {
            assert(all.skip(k).len() == 0);
            assert(all.take(k) =~= all);
        }
    }
}

/// Builds the process-wide handler list by collecting each enabled plugin
/// bundle, in the fixed bootstrap order: `start`, then `about`.
pub fn initialize(handler_list: &mut Vec<Handler>)
    ensures
        final(handler_list)@.len() == old(handler_list)@.len() + 4,
        forall|i: int|
            0 <= i < old(handler_list)@.len() ==> final(handler_list)@[i] == old(handler_list)@[i],
        crate::handlers::start::is_start_message_handler(
            final(handler_list)@[old(handler_list)@.len() as int],
        ),
        crate::handlers::start::is_start_callback_handler(
            final(handler_list)@[old(handler_list)@.len() + 1 as int],
        ),
        crate::handlers::about::is_about_message_handler(
            final(handler_list)@[old(handler_list)@.len() + 2 as int],
        ),
        crate::handlers::about::is_about_callback_handler(
            final(handler_list)@[old(handler_list)@.len() + 3 as int],
        ),
{
    append_bundle(handler_list, crate::handlers::start::initialize());
    append_bundle(handler_list, crate::handlers::about::initialize());
}

} // verus!
