//! The top-level convenience context: the current domain and a shallow
//! assembly listing (names and file names only, no class walk), built once
//! through the resolved interface.

use vstd::prelude::*;

verus! {

use crate::classes::assembly::Assembly;
use crate::client;
use crate::error::Error;
use crate::functions::Il2CppFunctions;
use crate::handle::Handle;
use crate::native::NativeInvoker;

/// The context: the domain handle once fetched, and the shallow assembly
/// listing.
#[derive(Debug)]
pub struct UnityResolve {
    pub p_domain: Option<Handle>,
    pub assemblies: Vec<Assembly>,
}

impl UnityResolve {
    /// A context with no domain and no assemblies.
    pub fn new_empty() -> (r: UnityResolve)
        ensures
            r.p_domain is None,
            r.assemblies@.len() == 0,
    {
        UnityResolve { p_domain: None, assemblies: Vec::new() }
    }

    /// The domain handle, if the context has been initialised.
    pub fn get_domain(&self) -> (r: Option<Handle>)
        ensures
            r == self.p_domain,
    {
        self.p_domain
    }

    /// List the domain's assemblies shallowly, appending one entry per
    /// assembly whose image, name and file name all resolve; any other
    /// assembly is skipped on its own.  Appended entries hold no classes.
    pub fn cache_assemblies<I: NativeInvoker>(&mut self, inv: &I, funcs: &Il2CppFunctions) -> (r:
        Result<(), Error>)
        ensures
            final(self).p_domain == old(self).p_domain,
            old(self).assemblies@.is_prefix_of(final(self).assemblies@),
            forall|i: int|
                old(self).assemblies@.len() <= i < final(self).assemblies@.len()
                    ==> #[trigger] final(self).assemblies@[i].classes@.len() == 0,
            old(self).p_domain is None ==> (r matches Err(e) && e == Error::DomainUnavailable),
            old(self).p_domain matches Some(d) ==> (r is Err <==> (d.addr == 0
                || funcs.domain_get_assemblies is None)),
            old(self).p_domain matches Some(d) ==> (d.addr == 0 ==> r == Err::<(), Error>(
                Error::DomainUnavailable,
            )),
            old(self).p_domain matches Some(d) ==> (d.addr != 0
                && funcs.domain_get_assemblies is None ==> (r matches Err(e)
                && e matches Error::SymbolNotResolved(_))),
    {
        let domain = match self.p_domain {
            Some(d) => d,
            None => {
                proof {
                    assert(self.assemblies@ =~= self.assemblies@.subrange(
                        0,
                        self.assemblies@.len() as int,
                    ));
                }
                return Err(Error::DomainUnavailable);
            },
        };
        let handles = match client::domain_get_assemblies(inv, funcs, domain) {
            Ok(v) => v,
            Err(e) => {
                proof {
                    assert(self.assemblies@ =~= self.assemblies@.subrange(
                        0,
                        self.assemblies@.len() as int,
                    ));
                }
                return Err(e);
            },
        };
        let n = handles.len();
        let mut i: usize = 0;
        proof {
            assert(self.assemblies@ =~= self.assemblies@.subrange(0, self.assemblies@.len() as int));
        }
        while i < n
            invariant
                i <= n,
                n == handles@.len(),
                domain.addr != 0,
                funcs.domain_get_assemblies is Some,
                old(self).p_domain == Some(domain),
                self.p_domain == old(self).p_domain,
                old(self).assemblies@.is_prefix_of(self.assemblies@),
                forall|k: int|
                    old(self).assemblies@.len() <= k < self.assemblies@.len()
                        ==> #[trigger] self.assemblies@[k].classes@.len() == 0,
            decreases n - i,
        {
            let index = i;
            i = i + 1;
            let assembly = handles[index];
            let image = match client::assembly_get_image(inv, funcs, assembly) {
                Ok(v) => v,
                Err(_) => {
                    continue;
                },
            };
            let name = match client::image_get_name(inv, funcs, image) {
                Ok(v) => v,
                Err(_) => {
                    continue;
                },
            };
            let file_name = match client::image_get_filename(inv, funcs, image) {
                Ok(v) => v,
                Err(_) => {
                    continue;
                },
            };
            self.assemblies.push(Assembly::new(assembly, name, file_name));
            proof {
                assert(old(self).assemblies@ =~= self.assemblies@.subrange(
                    0,
                    old(self).assemblies@.len() as int,
                ));
            }
        }
        Ok(())
    }

    /// Initialise the context: fetch the domain, attach the calling thread
    /// to it, and list the assemblies.
    pub fn init<I: NativeInvoker>(&mut self, inv: &I, funcs: &Il2CppFunctions) -> (r: Result<
        (),
        Error,
    >)
        ensures
            r is Ok ==> final(self).p_domain is Some,
            funcs.get_domain is None ==> r is Err,
            r is Ok ==> funcs.domain_get_assemblies is Some,
    {
        let domain = match client::get_domain(inv, funcs) {
            Ok(d) => d,
            Err(e) => {
                return Err(e);
            },
        };
        self.p_domain = Some(domain);
        let _ = client::thread_attach(inv, funcs, domain);
        self.cache_assemblies(inv, funcs)
    }
}

} // verus!
