//! Algorithm choice, error kinds, and the option record of the engine.

use vstd::prelude::*;

verus! {

/// Variant of the QR iteration used to reach the Schur form.
///
/// - `Naive` --- repeated full Gram-Schmidt QR factorization; no shift,
///   unreliable convergence, kept as a reference baseline.
/// - `Hessenberg` --- Givens sweeps on a Hessenberg-reduced matrix; cheaper
///   per sweep than `Naive`, same convergence issues.
/// - `Francis` --- implicit double-shift iteration with deflation; the
///   production default.
/// - `Symmetric` --- implicit Wilkinson-shift iteration with deflation,
///   for symmetric input only.
#[derive(Debug, Clone, Copy, PartialEq, Eq, Structural)]
pub enum QRAlgorithm {
    Naive,
    Hessenberg,
    Francis,
    Symmetric,
}

/// Failure of a Schur-form computation.
///
/// - `NotFinite` --- the input matrix has infinite or NaN entries.
/// - `NotSquare` --- a square matrix is required.
/// - `NotSymmetric` --- the symmetric algorithm was given an asymmetric matrix.
/// - `ConvergenceFailed` --- the iteration budget ran out before the residual
///   dropped below tolerance.
#[derive(Debug, Clone, Copy, PartialEq, Eq, Structural)]
pub enum QRError {
    NotFinite,
    NotSquare,
    NotSymmetric,
    ConvergenceFailed,
}

impl QRError {
    /// The human-readable description of this error kind.
    pub open spec fn message_spec(self) -> Seq<char> {
        match self {
            QRError::NotFinite => "supplied matrix has infinite or nan entries"@,
            QRError::NotSquare => "supplied matrix is not square"@,
            QRError::NotSymmetric => "supplied matrix is not symmetric"@,
            QRError::ConvergenceFailed => "algorithm failed to converge"@,
        }
    }

    /// Renders the error kind as its description.
    pub fn message(&self) -> (r: String)
        ensures
            r@ == self.message_spec(),
    {
        match self {
            QRError::NotFinite => "supplied matrix has infinite or nan entries".to_string(),
            QRError::NotSquare => "supplied matrix is not square".to_string(),
            QRError::NotSymmetric => "supplied matrix is not symmetric".to_string(),
            QRError::ConvergenceFailed => "algorithm failed to converge".to_string(),
        }
    }
}

/// The discrete part of the engine's option record.
///
/// The numerical threshold `eps` lives with the floating-point kernels; every
/// other knob is discrete and is carried here.
///
/// - `iterations` --- ceiling on the number of QR sweeps per invocation.
/// - `algorithm` --- the iteration variant to run.
/// - `do_safety_checks` --- validate the input and check convergence after.
/// - `zero_entries` --- zero out sub-threshold entries of the result.
/// - `accumulate_sim_transforms` --- accumulate the orthogonal similarity
///   transform; skipping it saves work when only eigenvalues are wanted.
#[derive(Debug, Clone, Copy, PartialEq, Eq, Structural)]
pub struct SchurOptions {
    pub iterations: usize,
    pub algorithm: QRAlgorithm,
    pub do_safety_checks: bool,
    pub zero_entries: bool,
    pub accumulate_sim_transforms: bool,
}

impl SchurOptions {
    /// The default option record: the Francis algorithm under a ceiling of
    /// 100000 sweeps, with validation, zeroing, and accumulation all on.
    pub fn defaults() -> (r: SchurOptions)
        ensures
            r == (SchurOptions {
                iterations: 100000,
                algorithm: QRAlgorithm::Francis,
                do_safety_checks: true,
                zero_entries: true,
                accumulate_sim_transforms: true,
            }),
    {
        SchurOptions {
            iterations: 100000,
            algorithm: QRAlgorithm::Francis,
            do_safety_checks: true,
            zero_entries: true,
            accumulate_sim_transforms: true,
        }
    }

    /// The defaults with the symmetric algorithm selected; used for symmetric
    /// input and for the singular value decomposition.
    pub fn symmetric_defaults() -> (r: SchurOptions)
        ensures
            r == (SchurOptions { algorithm: QRAlgorithm::Symmetric, ..SchurOptions::defaults_spec() }),
    {
        SchurOptions {
            algorithm: QRAlgorithm::Symmetric,
            ..SchurOptions::defaults()
        }
    }

    /// The defaults with zeroing and accumulation switched off; used when only
    /// eigenvalues are extracted and the transform would be wasted work.
    pub fn eigenvalue_defaults() -> (r: SchurOptions)
        ensures
            r == (SchurOptions {
                zero_entries: false,
                accumulate_sim_transforms: false,
                ..SchurOptions::defaults_spec()
            }),
    {
        SchurOptions {
            zero_entries: false,
            accumulate_sim_transforms: false,
            ..SchurOptions::defaults()
        }
    }

    /// What `defaults` returns.
    pub open spec fn defaults_spec() -> SchurOptions {
        SchurOptions {
            iterations: 100000,
            algorithm: QRAlgorithm::Francis,
            do_safety_checks: true,
            zero_entries: true,
            accumulate_sim_transforms: true,
        }
    }
}

impl Default for SchurOptions {
    /// The same record as `defaults`.
    fn default() -> (r: SchurOptions)
        ensures
            r == SchurOptions::defaults_spec(),
    {
        SchurOptions::defaults()
    }
}

} // verus!
