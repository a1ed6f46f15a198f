//! The type-parameter bundle: one name for a whole configuration.
//!
//! A generic routine over this harness needs three types at once — the
//! unified error type, the input type and the output type — and restating
//! three generic parameters at every call site would let them drift apart.
//! [`TypeParamsT`] names the three as associated slots of one aggregate.
//! [`TypeParamsConstrained`] refines it: the same three slots, each now
//! bound by the capability it must satisfy, and each provably identical to
//! the unconstrained slot of the same name. The supertrait's slot bindings
//! state that identity; without them the compiler would forget, once the
//! refinement is applied, that the refined slots are the original ones.
//!
//! The blanket rule below discharges the proof obligation once, centrally:
//! any bundle whose slots already satisfy the capabilities qualifies as a
//! constrained bundle, with its constrained slots equal to its own.

use vstd::prelude::*;
use crate::capability::{Input, Output};
use crate::errors::Diagnostic;

verus! {

/// A compile-time-only aggregate naming the three types of one
/// configuration: the unified error type, the input type, the output
/// type. It has no runtime instance.
pub trait TypeParamsT {
    /// The unified error type this configuration returns failures as.
    type AppError;

    /// The input type this configuration reads from.
    type Input;

    /// The output type this configuration writes to.
    type Output;
}

/// The same three slots as [`TypeParamsT`], each bound by its capability:
/// the error slot describes itself, the input slot is [`Input`], the
/// output slot is [`Output`], all with unbounded lifetime. The supertrait
/// bindings make each constrained slot provably identical to the
/// unconstrained slot of the same name.
pub trait TypeParamsConstrained: TypeParamsT<
    AppError = <Self as TypeParamsConstrained>::AppError,
    Input = <Self as TypeParamsConstrained>::Input,
    Output = <Self as TypeParamsConstrained>::Output,
> {
    /// The error slot, now known to describe itself.
    type AppError: Diagnostic + 'static;

    /// The input slot, now known to be readable.
    type Input: Input + 'static;

    /// The output slot, now known to be writable.
    type Output: Output + 'static;
}

impl<T> TypeParamsConstrained for T where
    T: TypeParamsT,
    T::AppError: Diagnostic + 'static,
    T::Input: Input + 'static,
    T::Output: Output + 'static,
{
    type AppError = T::AppError;

    type Input = T::Input;

    type Output = T::Output;
}

/// The execution context of one run: exactly one live input instance and
/// one live output instance, both owned exclusively, matching the slots of
/// one bundle.
pub struct CmdCtx<Types: TypeParamsT> {
    /// The input collaborator.
    pub input: Types::Input,

    /// The output collaborator.
    pub output: Types::Output,
}

} // verus!
