use vstd::prelude::*;

use crate::error::Error;
use crate::json::json_ok;

verus! {

/// A callable tool: the capability a caller registers under a name.
///
/// `spec_invoke` is the handler's own statement of what it computes from
/// the raw argument text; `invoke` must return exactly that value, so a
/// dispatch through the registry returns what the handler itself returns.
pub trait ToolHandler {
    /// What the handler yields for a given argument text: the result
    /// document serialized to text, or the text of its own failure.
    spec fn spec_invoke(&self, arguments: Seq<char>) -> Result<Seq<char>, Seq<char>>;

    /// Run the handler on the raw argument text.
    fn invoke(&self, arguments: &str) -> (r: Result<String, String>)
        ensures
            self.spec_invoke(arguments@) matches Ok(v) ==> (r matches Ok(out) && out@ == v),
            self.spec_invoke(arguments@) matches Err(d) ==> (r matches Err(out) && out@ == d),
    ;
}

/// The binding that a name resolves to among `entries`, scanning from the
/// most recent registration backwards.
spec fn lookup_in<H>(entries: Seq<(String, H)>, name: Seq<char>) -> Option<H>
    decreases entries.len(),
{
    if entries.len() == 0 {
        Option::None
    } else if entries.last().0@ == name {
        Option::Some(entries.last().1)
    } else {
        lookup_in(entries.drop_last(), name)
    }
}

/// A name-keyed table of tool handlers.
///
/// Registering a name again rebinds it: the last registration wins.
pub struct ToolRegistry<H> {
    entries: Vec<(String, H)>,
}

impl<H> ToolRegistry<H> {
    /// The handler currently bound to `name`, if any.
    pub closed spec fn spec_lookup(&self, name: Seq<char>) -> Option<H> {
        lookup_in(self.entries@, name)
    }

    /// An empty registry: no name is bound.
    pub fn new() -> (r: ToolRegistry<H>)
        ensures
            forall|n: Seq<char>| r.spec_lookup(n) is None,
    {
        ToolRegistry { entries: Vec::new() }
    }

    /// Bind `name` to `handler`. A name already bound is rebound: the last
    /// registration wins; every other binding is untouched.
    pub fn register(&mut self, name: String, handler: H)
        ensures
            final(self).spec_lookup(name@) == Option::Some(handler),
            forall|n: Seq<char>|
                n != name@ ==> final(self).spec_lookup(n) == old(self).spec_lookup(n),
    {
        let ghost before = self.entries@;
        let ghost p = (name, handler);
        self.entries.push((name, handler));
        proof {
            assert(self.entries@ == before.push(p));
            assert(self.entries@.last() == p);
            assert(self.entries@.drop_last() =~= before);
            assert forall|n: Seq<char>|
                n != p.0@ implies lookup_in(self.entries@, n) == lookup_in(before, n) by {
                assert(lookup_in(self.entries@, n) == lookup_in(self.entries@.drop_last(), n));
            }
        }
    }

    /// The position of the binding that `name` resolves to, scanning from
    /// the most recent registration backwards.
    fn find_index(&self, name: &String) -> (r: Option<usize>)
        ensures
            r matches Some(i) ==> i < self.entries@.len() && self.entries@[i as int].0@ == name@
                && self.spec_lookup(name@) == Option::Some(self.entries@[i as int].1),
            r is None ==> self.spec_lookup(name@) is None,
    {
        let mut i: usize = self.entries.len();
        proof {
            assert(self.entries@.take(i as int) =~= self.entries@);
        }
        loop
            invariant
                i <= self.entries@.len(),
                lookup_in(self.entries@, name@) == lookup_in(
                    self.entries@.take(i as int),
                    name@,
                ),
            decreases i,
        {
            if i == 0 {
                proof {
                    assert(self.entries@.take(0) =~= Seq::<(String, H)>::empty());
                }
                return Option::None;
            }
            i = i - 1;
            let ghost prefix = self.entries@.take(i + 1 as int);
            proof {
                assert(prefix.last() == self.entries@[i as int]);
                assert(prefix.drop_last() =~= self.entries@.take(i as int));
            }
            if self.entries[i].0.eq(name) {
                return Option::Some(i);
            }
        }
    }
}

/// What a dispatch of `name` with `arguments` comes to, over the registry's
/// bindings and the bound handler's own statement of itself.
pub ghost enum DispatchView {
    /// The bound handler succeeds with this serialized result document.
    Value { value: Seq<char> },
    /// No handler is bound to the name.
    UnknownName,
    /// The argument text is not a well-formed document.
    BadArguments,
    /// The bound handler fails with this detail text.
    HandlerFailed { detail: Seq<char> },
}

/// The outcome of dispatching `name` with `arguments` through `reg`.
pub open spec fn dispatch_spec<H: ToolHandler>(
    reg: ToolRegistry<H>,
    name: Seq<char>,
    arguments: Seq<char>,
) -> DispatchView {
    match reg.spec_lookup(name) {
        Option::None => DispatchView::UnknownName,
        Option::Some(h) => {
            if !json_ok(arguments) {
                DispatchView::BadArguments
            } else {
                match h.spec_invoke(arguments) {
                    Ok(v) => DispatchView::Value { value: v },
                    Err(d) => DispatchView::HandlerFailed { detail: d },
                }
            }
        },
    }
}

impl<H: ToolHandler> ToolRegistry<H> {
    /// Resolve `name`, check the raw arguments parse as a document, and
    /// invoke the bound handler, exactly as `dispatch_spec` reads it.
    pub fn dispatch(&self, name: &String, raw_arguments: &String) -> (r: Result<String, Error>)
        ensures
            dispatch_spec(*self, name@, raw_arguments@) matches DispatchView::Value { value }
                ==> (r matches Ok(v) && v@ == value),
            dispatch_spec(*self, name@, raw_arguments@) is UnknownName ==> (r matches Err(e)
                && e matches Error::UnknownTool { name: n } && n@ == name@),
            dispatch_spec(*self, name@, raw_arguments@) is BadArguments ==> (r matches Err(e)
                && e matches Error::ArgumentDecode { name: n } && n@ == name@),
            dispatch_spec(*self, name@, raw_arguments@) matches DispatchView::HandlerFailed {
                detail,
            } ==> (r matches Err(e) && e matches Error::Handler { name: n, detail: d } && n@
                == name@ && d@ == detail),
    {
        let idx = match self.find_index(name) {
            Option::Some(i) => i,
            Option::None => {
                return Err(Error::UnknownTool { name: name.clone() });
            },
        };
        if !crate::json::parses_as_document(raw_arguments.as_str()) {
            return Err(Error::ArgumentDecode { name: name.clone() });
        }
        match self.entries[idx].1.invoke(raw_arguments.as_str()) {
            Ok(v) => Ok(v),
            Err(d) => Err(Error::Handler { name: name.clone(), detail: d }),
        }
    }
}

/// Dispatch round-trip law: a registered tool dispatched with well-formed
/// arguments comes to exactly what the handler itself yields on those
/// arguments, and an unregistered name always comes to an unknown-name
/// failure, whatever the arguments.
pub proof fn lemma_dispatch_round_trip<H: ToolHandler>(
    reg: ToolRegistry<H>,
    name: Seq<char>,
    arguments: Seq<char>,
)
    ensures
        reg.spec_lookup(name) matches Some(h) ==> (json_ok(arguments) ==> ((h.spec_invoke(
            arguments,
        ) matches Ok(v) ==> dispatch_spec(reg, name, arguments) == (DispatchView::Value {
            value: v,
        })) && (h.spec_invoke(arguments) matches Err(d) ==> dispatch_spec(reg, name, arguments)
            == (DispatchView::HandlerFailed { detail: d })))),
        reg.spec_lookup(name) is None ==> dispatch_spec(reg, name, arguments)
            == DispatchView::UnknownName,
{
}

} // verus!
