//! The handle of one instance of the native library, seen from the host.
//!
//! The native library keeps the state of an instance behind an address that
//! only it can read. What the host can know of an instance is held here: the
//! request it was created from and whether it has been destroyed. Every call
//! that would cross to the native library is first judged against that
//! knowledge; a call that the judgement refuses never crosses. The crossing
//! itself is a function value supplied by the caller, and the status it
//! returns is mapped to a two-outcome result.

use crate::records::{Denoiser, DenoiserDesc, DispatchDesc, Identifier, LibraryDesc};
use crate::settings::{CommonSettings, DenoiserSettings, SettingsFamily};
use crate::status::Result;
use vstd::prelude::*;
use vstd::slice::slice_to_vec;

verus! {

/// Whether two entries of the request share an identifier.
pub open spec fn has_duplicate_identifier(denoisers: Seq<DenoiserDesc>) -> bool {
    exists|i: int, j: int|
        0 <= i < j < denoisers.len() && denoisers[i].identifier == denoisers[j].identifier
}

/// Whether the request names a denoiser that is not among `supported`.
pub open spec fn has_unsupported_denoiser(
    denoisers: Seq<DenoiserDesc>,
    supported: Seq<Denoiser>,
) -> bool {
    exists|i: int| 0 <= i < denoisers.len() && !supported.contains(#[trigger] denoisers[i].denoiser)
}

/// Whether an entry of the request has a render width or height of zero.
pub open spec fn has_zero_dimension(denoisers: Seq<DenoiserDesc>) -> bool {
    exists|i: int|
        0 <= i < denoisers.len() && ((#[trigger] denoisers[i]).render_width == 0
            || denoisers[i].render_height == 0)
}

/// The status that a creation request earns before the native library is
/// asked.
///
/// A shared identifier is reported before anything else, then a denoiser
/// that the binary lacks, then a request that is empty, has more entries than
/// a native record can count, or asks for a zero-sized render target.
pub open spec fn creation_status(denoisers: Seq<DenoiserDesc>, supported: Seq<Denoiser>) -> Result {
    if has_duplicate_identifier(denoisers) {
        Result::NonUniqueIdentifier
    } else if has_unsupported_denoiser(denoisers, supported) {
        Result::Unsupported
    } else if denoisers.len() == 0 || denoisers.len() > u32::MAX || has_zero_dimension(denoisers) {
        Result::InvalidArgument
    } else {
        Result::Success
    }
}

/// Whether `identifier` names an entry of `denoisers`.
pub open spec fn names_entry(denoisers: Seq<DenoiserDesc>, identifier: Identifier) -> bool {
    exists|i: int| 0 <= i < denoisers.len() && (#[trigger] denoisers[i]).identifier == identifier
}

/// Whether `identifier` names an entry of `denoisers` whose variant takes
/// settings of `family`.
pub open spec fn names_entry_of_family(
    denoisers: Seq<DenoiserDesc>,
    identifier: Identifier,
    family: SettingsFamily,
) -> bool {
    exists|i: int|
        0 <= i < denoisers.len() && (#[trigger] denoisers[i]).identifier == identifier
            && denoisers[i].denoiser.settings_family_of() == Some(family)
}

/// Whether a dispatch query for `identifiers` may cross to the native
/// library: every identifier names an entry, and a native record can count
/// them.
pub open spec fn names_entries(denoisers: Seq<DenoiserDesc>, identifiers: Seq<Identifier>) -> bool {
    &&& identifiers.len() <= u32::MAX
    &&& forall|k: int|
        0 <= k < identifiers.len() ==> names_entry(denoisers, #[trigger] identifiers[k])
}

fn find_duplicate_identifier(denoisers: &[DenoiserDesc]) -> (found: bool)
    ensures
        found == has_duplicate_identifier(denoisers@),
{
    let n = denoisers.len();
    let mut j: usize = 0;
    while j < n
        invariant
            n == denoisers@.len(),
            j <= n,
            forall|a: int, b: int|
                0 <= a < b < j ==> denoisers@[a].identifier != denoisers@[b].identifier,
        decreases n - j,
    {
        let mut i: usize = 0;
        while i < j
            invariant
                n == denoisers@.len(),
                i <= j < n,
                forall|a: int|
                    0 <= a < i ==> denoisers@[a].identifier != denoisers@[j as int].identifier,
            decreases j - i,
        {
            if denoisers[i].identifier.0 == denoisers[j].identifier.0 {
                assert(0 <= i < j < denoisers@.len() && denoisers@[i as int].identifier
                    == denoisers@[j as int].identifier);
                return true;
            }
            i += 1;
        }
        j += 1;
    }
    false
}

fn find_unsupported_denoiser(denoisers: &[DenoiserDesc], library: &LibraryDesc) -> (found: bool)
    ensures
        found == has_unsupported_denoiser(denoisers@, library.supported_denoisers@),
{
    let mut i: usize = 0;
    while i < denoisers.len()
        invariant
            i <= denoisers@.len(),
            forall|a: int|
                0 <= a < i ==> library.supported_denoisers@.contains(
                    #[trigger] denoisers@[a].denoiser,
                ),
        decreases denoisers@.len() - i,
    {
        if !library.supports(denoisers[i].denoiser) {
            return true;
        }
        i += 1;
    }
    false
}

fn find_zero_dimension(denoisers: &[DenoiserDesc]) -> (found: bool)
    ensures
        found == has_zero_dimension(denoisers@),
{
    let mut i: usize = 0;
    while i < denoisers.len()
        invariant
            i <= denoisers@.len(),
            forall|a: int|
                0 <= a < i ==> (#[trigger] denoisers@[a]).render_width != 0
                    && denoisers@[a].render_height != 0,
        decreases denoisers@.len() - i,
    {
        if denoisers[i].render_width == 0 || denoisers[i].render_height == 0 {
            return true;
        }
        i += 1;
    }
    false
}

/// Judges a creation request against what the loaded binary supports,
/// without asking the native library.
pub fn check_request(denoisers: &[DenoiserDesc], library: &LibraryDesc) -> (status: Result)
    ensures
        status == creation_status(denoisers@, library.supported_denoisers@),
{
    if find_duplicate_identifier(denoisers) {
        Result::NonUniqueIdentifier
    } else if find_unsupported_denoiser(denoisers, library) {
        Result::Unsupported
    } else if denoisers.len() == 0 || denoisers.len() > 0xffff_ffff || find_zero_dimension(
        denoisers,
    ) {
        Result::InvalidArgument
    } else {
        Result::Success
    }
}

/// A request with at least one entry, no more entries than a native record
/// can count, identifiers that differ pairwise, only denoisers that the
/// binary supports and no render target of size zero earns `Success`.
pub proof fn lemma_sound_request_is_accepted(
    denoisers: Seq<DenoiserDesc>,
    supported: Seq<Denoiser>,
)
    requires
        0 < denoisers.len() <= u32::MAX,
        forall|i: int, j: int|
            0 <= i < j < denoisers.len() ==> denoisers[i].identifier != denoisers[j].identifier,
        forall|i: int| 0 <= i < denoisers.len() ==> supported.contains(denoisers[i].denoiser),
        forall|i: int|
            0 <= i < denoisers.len() ==> denoisers[i].render_width != 0
                && denoisers[i].render_height != 0,
    ensures
        creation_status(denoisers, supported) == Result::Success,
{
}

/// A request in which two entries share an identifier earns
/// `NonUniqueIdentifier`, whatever else it holds.
pub proof fn lemma_shared_identifier_is_refused(
    denoisers: Seq<DenoiserDesc>,
    supported: Seq<Denoiser>,
    i: int,
    j: int,
)
    requires
        0 <= i < j < denoisers.len(),
        denoisers[i].identifier == denoisers[j].identifier,
    ensures
        creation_status(denoisers, supported) == Result::NonUniqueIdentifier,
{
}

/// The host's side of one instance handle.
///
/// A value exists only for a request that was judged sound and that the
/// native library then accepted. It is live until `destroy` is called, and
/// stays destroyed from then on.
pub struct Instance {
    denoisers: Vec<DenoiserDesc>,
    live: bool,
}

impl Instance {
    #[verifier::type_invariant]
    spec fn sound(&self) -> bool {
        &&& 0 < self.denoisers@.len() <= u32::MAX
        &&& !has_duplicate_identifier(self.denoisers@)
        &&& !has_zero_dimension(self.denoisers@)
    }

    /// The request that the instance was created from. It never changes.
    pub closed spec fn registry(&self) -> Seq<DenoiserDesc> {
        self.denoisers@
    }

    /// Whether the instance has not been destroyed yet.
    pub closed spec fn live(&self) -> bool {
        self.live
    }

    /// Creates an instance from `denoisers`.
    ///
    /// The request is judged first. A request that fails the judgement is
    /// answered with the status it earned, and `create` is not called. A sound
    /// request is handed to `create`, which asks the native library; the
    /// instance exists exactly if that reports `Success`, and any other status
    /// is handed back as the error.
    pub fn new<F: FnOnce(&[DenoiserDesc]) -> Result>(
        denoisers: &[DenoiserDesc],
        library: &LibraryDesc,
        create: F,
    ) -> (r: core::result::Result<Instance, Result>)
        requires
            creation_status(denoisers@, library.supported_denoisers@) == Result::Success
                ==> create.requires((denoisers,)),
        ensures
            creation_status(denoisers@, library.supported_denoisers@) != Result::Success ==> r
                is Err && r->Err_0 == creation_status(denoisers@, library.supported_denoisers@),
            has_duplicate_identifier(denoisers@) ==> r is Err && r->Err_0
                == Result::NonUniqueIdentifier,
            creation_status(denoisers@, library.supported_denoisers@) == Result::Success
                ==> exists|status: Result| #[trigger]
                create.ensures((denoisers,), status) && match r {
                    Ok(instance) => status == Result::Success && instance.live()
                        && instance.registry() == denoisers@,
                    Err(e) => status != Result::Success && e == status,
                },
    {
        let verdict = check_request(denoisers, library);
        match verdict {
            Result::Success => {
                let status = create(denoisers);
                match status {
                    Result::Success => {
                        let registry = slice_to_vec(denoisers);
                        assert(registry@ == denoisers@);
                        Ok(Instance { denoisers: registry, live: true })
                    },
                    _ => Err(status),
                }
            },
            _ => Err(verdict),
        }
    }

    /// Whether the instance has not been destroyed yet.
    pub fn is_live(&self) -> (live: bool)
        ensures
            live == self.live(),
    {
        self.live
    }

    /// The request that the instance was created from: never empty, with
    /// identifiers that differ pairwise and no render target of size zero.
    pub fn denoisers(&self) -> (list: &[DenoiserDesc])
        ensures
            list@ == self.registry(),
            0 < list@.len() <= u32::MAX,
            !has_duplicate_identifier(list@),
            !has_zero_dimension(list@),
    {
        proof {
            use_type_invariant(self);
        }
        self.denoisers.as_slice()
    }

    /// The variant of the denoiser that `identifier` names, if it names one.
    pub fn denoiser_of(&self, identifier: Identifier) -> (found: Option<Denoiser>)
        ensures
            found is Some <==> names_entry(self.registry(), identifier),
            found is Some ==> forall|i: int|
                0 <= i < self.registry().len() && (#[trigger] self.registry()[i]).identifier
                    == identifier ==> self.registry()[i].denoiser == found->Some_0,
    {
        proof {
            use_type_invariant(self);
        }
        let mut i: usize = 0;
        while i < self.denoisers.len()
            invariant
                i <= self.denoisers@.len(),
                forall|a: int|
                    0 <= a < i ==> (#[trigger] self.denoisers@[a]).identifier != identifier,
            decreases self.denoisers@.len() - i,
        {
            if self.denoisers[i].identifier.0 == identifier.0 {
                proof {
                    use_type_invariant(self);
                }
                assert(self.denoisers@[i as int].identifier == identifier);
                assert forall|k: int|
                    0 <= k < self.denoisers@.len() && (#[trigger] self.denoisers@[k]).identifier
                        == identifier implies self.denoisers@[k].denoiser
                    == self.denoisers@[i as int].denoiser by {
                    if i < k {
                        assert(0 <= i < k < self.denoisers@.len()
                            && self.denoisers@[i as int].identifier
                            == self.denoisers@[k].identifier);
                    }
                }
                return Some(self.denoisers[i].denoiser);
            }
            i += 1;
        }
        None
    }

    /// Replaces the settings of the frame as a whole.
    ///
    /// Nothing in the record is judged here: `apply` hands it to the native
    /// library, and the status that comes back decides the result.
    pub fn set_common_settings<F: FnOnce(&CommonSettings) -> Result>(
        &mut self,
        settings: &CommonSettings,
        apply: F,
    ) -> (r: core::result::Result<(), Result>)
        requires
            old(self).live(),
            apply.requires((settings,)),
        ensures
            final(self).live(),
            final(self).registry() == old(self).registry(),
            exists|status: Result| #[trigger]
                apply.ensures((settings,), status) && r == status.ok_spec(()),
    {
        let status = apply(settings);
        status.ok(())
    }

    /// Gives the denoiser that `identifier` names its settings.
    ///
    /// The call crosses to the native library, through `apply`, only if
    /// `identifier` was part of the creation request and the variant registered
    /// under it takes settings of this record's family. Otherwise the result
    /// is `InvalidArgument` and nothing has been touched.
    pub fn set_denoiser_settings<T: DenoiserSettings, F: FnOnce(Identifier, &T) -> Result>(
        &mut self,
        identifier: Identifier,
        settings: &T,
        apply: F,
    ) -> (r: core::result::Result<(), Result>)
        requires
            old(self).live(),
            names_entry_of_family(old(self).registry(), identifier, T::family_of())
                ==> apply.requires((identifier, settings)),
        ensures
            final(self).live(),
            final(self).registry() == old(self).registry(),
            !names_entry(old(self).registry(), identifier) ==> r == Err::<(), Result>(
                Result::InvalidArgument,
            ),
            !names_entry_of_family(old(self).registry(), identifier, T::family_of()) ==> r
                == Err::<(), Result>(Result::InvalidArgument),
            names_entry_of_family(old(self).registry(), identifier, T::family_of())
                ==> exists|status: Result| #[trigger]
                apply.ensures((identifier, settings), status) && r == status.ok_spec(()),
    {
        let family = settings.family();
        let registered = self.denoiser_of(identifier);
        let fits = match registered {
            Some(denoiser) => match denoiser.settings_family() {
                Some(taken) => taken == family,
                None => false,
            },
            None => false,
        };
        if fits {
            let status = apply(identifier, settings);
            status.ok(())
        } else {
            Err(Result::InvalidArgument)
        }
    }

    /// Asks for the dispatches that advance the named denoisers by one frame,
    /// in the order in which the host has to run them.
    ///
    /// The query crosses to the native library, through `query`, only if every
    /// identifier was part of the creation request and a native record can
    /// count them; otherwise the result is `InvalidArgument`. The dispatches
    /// come back exactly as `query` returned them, and only on `Success`.
    pub fn get_compute_dispatches<F: FnOnce(&[Identifier]) -> (Result, Vec<DispatchDesc>)>(
        &mut self,
        identifiers: &[Identifier],
        query: F,
    ) -> (r: core::result::Result<Vec<DispatchDesc>, Result>)
        requires
            old(self).live(),
            names_entries(old(self).registry(), identifiers@) ==> query.requires((identifiers,)),
        ensures
            final(self).live(),
            final(self).registry() == old(self).registry(),
            !names_entries(old(self).registry(), identifiers@) ==> r == Err::<
                Vec<DispatchDesc>,
                Result,
            >(Result::InvalidArgument),
            names_entries(old(self).registry(), identifiers@) ==> exists|
                status: Result,
                dispatches: Vec<DispatchDesc>,
            | #[trigger]
                query.ensures((identifiers,), (status, dispatches)) && r == status.ok_spec(
                    dispatches,
                ),
    {
        if identifiers.len() > 0xffff_ffff {
            return Err(Result::InvalidArgument);
        }
        let mut k: usize = 0;
        while k < identifiers.len()
            invariant
                k <= identifiers@.len(),
                self.live(),
                self.registry() == old(self).registry(),
                forall|a: int|
                    0 <= a < k ==> names_entry(self.registry(), #[trigger] identifiers@[a]),
            decreases identifiers@.len() - k,
        {
            if self.denoiser_of(identifiers[k]).is_none() {
                return Err(Result::InvalidArgument);
            }
            k += 1;
        }
        let (status, dispatches) = query(identifiers);
        status.ok(dispatches)
    }

    /// Destroys the instance.
    ///
    /// On a live instance `release` is called, once, to free what the native
    /// library holds, and the answer is `true`. On an instance that was
    /// destroyed before nothing happens and the answer is `false`.
    pub fn destroy<F: FnOnce()>(&mut self, release: F) -> (released: bool)
        requires
            old(self).live() ==> release.requires(()),
        ensures
            released == old(self).live(),
            released ==> release.ensures((), ()),
            !final(self).live(),
            final(self).registry() == old(self).registry(),
    {
        proof {
            use_type_invariant(&*self);
        }
        if self.live {
            release();
            self.live = false;
            true
        } else {
            false
        }
    }
}

} // verus!
