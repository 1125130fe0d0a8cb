use vstd::prelude::*;

verus! {

/// Who asks for a call: the privileged root, the no-signer origin of
/// validated unsigned submissions, or an ordinary signed account.
#[derive(Clone, Copy, Debug, PartialEq, Eq, Structural)]
pub enum Origin {
    Privileged,
    Unsigned,
    Signed(u64),
}

/// Why a gated call was turned down.
#[derive(Clone, Copy, Debug, PartialEq, Eq, Structural)]
pub enum DispatchError {
    /// The origin is not the one that the call demands.
    Unauthorized,
}

/// The calls that the module offers through the host's dispatch boundary.
#[derive(Clone, Copy, Debug, PartialEq, Eq, Structural)]
pub enum Call {
    SetPrices(u64),
    SubmitPrice(u64),
}

/// What the module reports to the host's event log.
#[derive(Clone, Copy, Debug, PartialEq, Eq, Structural)]
pub enum Event {
    NewPrice(u64),
}

/// The abstract state of the module: the price, and the events deposited so far.
pub struct PriceState {
    pub price: u64,
    pub events: Seq<Event>,
}

/// The genesis state.
pub open spec fn genesis() -> PriceState {
    PriceState { price: 0, events: Seq::empty() }
}

/// A write that went through: the price is replaced and `NewPrice` is deposited.
pub open spec fn written(s: PriceState, v: u64) -> PriceState {
    PriceState { price: v, events: s.events.push(Event::NewPrice(v)) }
}

/// `set_prices(v)`: only the privileged origin may write.
pub open spec fn set_prices_step(s: PriceState, origin: Origin, v: u64) -> (PriceState, Result<(), DispatchError>) {
    if origin == Origin::Privileged {
        (written(s, v), Ok(()))
    } else {
        (s, Err(DispatchError::Unauthorized))
    }
}

/// `submit_price(v)`: only the no-signer origin may write.
pub open spec fn submit_price_step(s: PriceState, origin: Origin, v: u64) -> (PriceState, Result<(), DispatchError>) {
    if origin == Origin::Unsigned {
        (written(s, v), Ok(()))
    } else {
        (s, Err(DispatchError::Unauthorized))
    }
}

/// A call applied from a given origin.
pub open spec fn dispatch_step(s: PriceState, origin: Origin, call: Call) -> (PriceState, Result<(), DispatchError>) {
    match call {
        Call::SetPrices(v) => set_prices_step(s, origin, v),
        Call::SubmitPrice(v) => submit_price_step(s, origin, v),
    }
}

/// Submitting the same price twice in a row leaves the same price as
/// submitting it once, and that price is the one submitted.
pub proof fn lemma_submit_price_idempotent(s: PriceState, v: u64)
    ensures
        submit_price_step(submit_price_step(s, Origin::Unsigned, v).0, Origin::Unsigned, v).0.price
            == submit_price_step(s, Origin::Unsigned, v).0.price,
        submit_price_step(s, Origin::Unsigned, v).0.price == v,
{
}

/// The module's storage: the price, and the events that it has deposited.
/// The host owns it and hands it to each call.
pub struct Module {
    price: u64,
    events: Vec<Event>,
}

impl View for Module {
    type V = PriceState;

    closed spec fn view(&self) -> PriceState {
        PriceState { price: self.price, events: self.events@ }
    }
}

impl Module {
    /// The storage at genesis: price 0, no events.
    pub fn new() -> (m: Module)
        ensures
            m@ == genesis(),
    {
        let m = Module { price: 0, events: Vec::new() };
        assert(m@.events =~= Seq::<Event>::empty());
        m
    }

    /// The current price. Anybody may read it.
    pub fn price(&self) -> (r: u64)
        ensures
            r == self@.price,
    {
        self.price
    }

    /// The events deposited so far, oldest first.
    pub fn events(&self) -> (r: Vec<Event>)
        ensures
            r@ == self@.events,
    {
        self.events.clone()
    }

    fn put(&mut self, v: u64)
        ensures
            final(self)@ == written(old(self)@, v),
    {
        self.price = v;
        self.events.push(Event::NewPrice(v));
    }

    /// Overwrites the price; the privileged origin only.
    pub fn set_prices(&mut self, origin: Origin, price: u64) -> (r: Result<(), DispatchError>)
        ensures
            (final(self)@, r) == set_prices_step(old(self)@, origin, price),
            r is Ok <==> origin == Origin::Privileged,
            r is Ok ==> final(self)@.price == price,
            r is Err ==> r == Err::<(), DispatchError>(DispatchError::Unauthorized) && final(self)@ == old(self)@,
    {
        match origin {
            Origin::Privileged => {
                self.put(price);
                Ok(())
            },
            _ => Err(DispatchError::Unauthorized),
        }
    }

    /// Applies an unsigned price submission; the no-signer origin only.
    pub fn submit_price(&mut self, origin: Origin, price: u64) -> (r: Result<(), DispatchError>)
        ensures
            (final(self)@, r) == submit_price_step(old(self)@, origin, price),
            r is Ok <==> origin == Origin::Unsigned,
            r is Ok ==> final(self)@.price == price,
            r is Err ==> r == Err::<(), DispatchError>(DispatchError::Unauthorized) && final(self)@ == old(self)@,
    {
        match origin {
            Origin::Unsigned => {
                self.put(price);
                Ok(())
            },
            _ => Err(DispatchError::Unauthorized),
        }
    }

    /// Applies a call from an origin, as the host does with an included transaction.
    pub fn dispatch(&mut self, origin: Origin, call: Call) -> (r: Result<(), DispatchError>)
        ensures
            (final(self)@, r) == dispatch_step(old(self)@, origin, call),
    {
        match call {
            Call::SetPrices(v) => self.set_prices(origin, v),
            Call::SubmitPrice(v) => self.submit_price(origin, v),
        }
    }
}

} // verus!
