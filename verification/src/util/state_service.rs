//! A layer that hands a piece of state to a service with every request.

use crate::framework::{Admission, Service};
use std::marker::PhantomData;
use vstd::pervasive::cloned;
use vstd::prelude::*;

verus! {

/// Wraps services so that each request reaches them together with a clone of
/// `state`.
pub struct StateLayer<Request, TState> {
    state: TState,
    phantom_data: PhantomData<Request>,
}

impl<Request, TState> StateLayer<Request, TState> {
    /// The state that is handed out.
    pub closed spec fn state(&self) -> TState {
        self.state
    }

    #[must_use]
    pub fn new(state: TState) -> (layer: Self)
        ensures
            layer.state() == state,
    {
        StateLayer { state, phantom_data: PhantomData }
    }

    /// Wraps `inner`.
    pub fn layer<TService>(&self, inner: TService) -> (service: StateLayerService<
        TState,
        TService,
    >) where TState: Clone
        ensures
            cloned(self.state(), service.state()),
            service.inner() == inner,
    {
        StateLayerService { state: self.state.clone(), inner }
    }
}

/// A service that passes each request on to `inner`, paired with a clone of
/// its state.
pub struct StateLayerService<TState, TService> {
    state: TState,
    inner: TService,
}

impl<TState, TService> StateLayerService<TState, TService> {
    /// The state that is handed out.
    pub closed spec fn state(&self) -> TState {
        self.state
    }

    /// The service that does the work.
    pub closed spec fn inner(&self) -> TService {
        self.inner
    }
}

impl<TState, TService, Request> Service<Request> for StateLayerService<TState, TService> where
    TState: Clone,
    TService: Service<(TState, Request)>,
 {
    type Response = TService::Response;

    type Error = TService::Error;

    /// Whatever `inner` answers to the request paired with a clone of the
    /// state.
    open spec fn answers(
        &self,
        request: Request,
        response: Result<Self::Response, Self::Error>,
    ) -> bool {
        exists|state: TState|
            #![trigger self.inner().answers((state, request), response)]
            cloned(self.state(), state) && self.inner().answers((state, request), response)
    }

    /// As ready as `inner` is.
    open spec fn admits(&self, admission: Admission<Self::Error>) -> bool {
        self.inner().admits(admission)
    }

    fn poll_ready(&mut self) -> (admission: Admission<Self::Error>)
        ensures
            final(self).state() == old(self).state(),
    {
        self.inner.poll_ready()
    }

    fn call(&mut self, request: Request) -> (response: Result<Self::Response, Self::Error>)
        ensures
            final(self).state() == old(self).state(),
    {
        let state = self.state.clone();
        let response = self.inner.call((state, request));
        assert(cloned(old(self).state(), state));
        assert(old(self).inner().answers((state, request), response));
        response
    }
}

} // verus!
