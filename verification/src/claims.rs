//! Single-instance bookkeeping: one context and one camera at a time.

use vstd::prelude::*;

verus! {

/// A resource of which the native library has one per process.
#[derive(Clone, Copy, Debug, PartialEq, Eq, Structural)]
pub enum Singleton {
    /// The initialised library, which a context owns.
    Context,
    /// The current camera, which a camera owns.
    Camera,
}

/// Which of the native library's singletons have an owner.
///
/// A host keeps one value of this type for the process. It claims a singleton
/// before it makes the owner and releases it after the owner is gone, so that
/// a second owner is found out before any native call is made for it.
#[derive(Debug)]
pub struct Claims {
    context: bool,
    camera: bool,
}

impl View for Claims {
    type V = Set<Singleton>;

    closed spec fn view(&self) -> Set<Singleton> {
        Set::new(
            |singleton: Singleton|
                match singleton {
                    Singleton::Context => self.context,
                    Singleton::Camera => self.camera,
                },
        )
    }
}

impl Claims {
    /// Nothing is claimed.
    pub fn new() -> (claims: Self)
        ensures
            claims@ == Set::<Singleton>::empty(),
    {
        let claims = Claims { context: false, camera: false };
        assert(claims@ =~= Set::empty());
        claims
    }

    /// Whether `singleton` has an owner.
    pub fn is_claimed(&self, singleton: Singleton) -> (claimed: bool)
        ensures
            claimed == self@.contains(singleton),
    {
        match singleton {
            Singleton::Context => self.context,
            Singleton::Camera => self.camera,
        }
    }

    /// Claims `singleton` for a new owner. The claim is granted exactly when
    /// the singleton has no owner; a refused claim changes nothing.
    pub fn claim(&mut self, singleton: Singleton) -> (granted: bool)
        ensures
            granted == !old(self)@.contains(singleton),
            final(self)@ == old(self)@.insert(singleton),
    {
        let granted = !self.is_claimed(singleton);
        match singleton {
            Singleton::Context => {
                self.context = true;
            },
            Singleton::Camera => {
                self.camera = true;
            },
        }
        assert(self@ =~= old(self)@.insert(singleton));
        granted
    }

    /// Gives `singleton` up, once its owner is gone.
    pub fn release(&mut self, singleton: Singleton)
        ensures
            final(self)@ == old(self)@.remove(singleton),
    {
        match singleton {
            Singleton::Context => {
                self.context = false;
            },
            Singleton::Camera => {
                self.camera = false;
            },
        }
        assert(self@ =~= old(self)@.remove(singleton));
    }
}

} // verus!
