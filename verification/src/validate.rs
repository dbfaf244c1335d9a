//! Validation and convergence verdicts, and the dispatch from an algorithm
//! choice to its sequence of phases.
//!
//! The measurements themselves (finiteness of entries, deviation from
//! symmetry or triangularity) are floating-point work and happen in the
//! numerical layer; this module fixes exactly which verdict follows from
//! their outcomes, in the order the engine applies them.

use vstd::prelude::*;

use crate::types::QRAlgorithm;
use crate::types::QRError;
use crate::types::SchurOptions;

verus! {

/// One phase of a Schur-form computation, in execution order.
///
/// - `Reduce` --- Householder reduction to Hessenberg form.
/// - `NaiveSweeps` --- repeated full QR factorization sweeps.
/// - `HessenbergSweeps` --- Givens sweeps on the Hessenberg form.
/// - `FrancisIterate` --- the implicit double-shift iteration.
/// - `BlockReduce` --- the post-pass that triangularizes leftover 2x2 blocks
///   with real eigenvalues.
/// - `SymmetricIterate` --- the implicit Wilkinson-shift iteration.
#[derive(Debug, Clone, Copy, PartialEq, Eq, Structural)]
pub enum Phase {
    Reduce,
    NaiveSweeps,
    HessenbergSweeps,
    FrancisIterate,
    BlockReduce,
    SymmetricIterate,
}

/// The phases that a given algorithm variant runs, in order.
pub open spec fn pipeline_spec(algorithm: QRAlgorithm) -> Seq<Phase> {
    match algorithm {
        QRAlgorithm::Naive => seq![Phase::NaiveSweeps],
        QRAlgorithm::Hessenberg => seq![Phase::Reduce, Phase::HessenbergSweeps],
        QRAlgorithm::Francis => seq![Phase::Reduce, Phase::FrancisIterate, Phase::BlockReduce],
        QRAlgorithm::Symmetric => seq![Phase::Reduce, Phase::SymmetricIterate],
    }
}

/// Computes the sequence of phases that realizes the requested algorithm:
/// every variant except `Naive` first reduces to Hessenberg form, and only
/// `Francis` runs the 2x2 block post-pass.
pub fn pipeline(algorithm: QRAlgorithm) -> (phases: Vec<Phase>)
    ensures
        phases@ == pipeline_spec(algorithm),
{
    let mut phases: Vec<Phase> = Vec::new();
    match algorithm {
        QRAlgorithm::Naive => {
            phases.push(Phase::NaiveSweeps);
        }
        QRAlgorithm::Hessenberg => {
            phases.push(Phase::Reduce);
            phases.push(Phase::HessenbergSweeps);
        }
        QRAlgorithm::Francis => {
            phases.push(Phase::Reduce);
            phases.push(Phase::FrancisIterate);
            phases.push(Phase::BlockReduce);
        }
        QRAlgorithm::Symmetric => {
            phases.push(Phase::Reduce);
            phases.push(Phase::SymmetricIterate);
        }
    }
    proof {
        assert(phases@ =~= pipeline_spec(algorithm));
    }
    phases
}

/// The verdict that a Schur-form entry point reaches from its input checks.
///
/// `finite` reports that every entry of the matrix is finite, `square` that
/// the matrix is square, and `symmetric_within_tol` that its deviation from
/// symmetry is below tolerance; the three are measured by the numerical
/// layer. Checks are applied in this order, and the symmetry check binds
/// only the symmetric algorithm. With safety checks disabled every input
/// passes.
pub fn validate_schur_input(
    opts: &SchurOptions,
    finite: bool,
    square: bool,
    symmetric_within_tol: bool,
) -> (r: Result<(), QRError>)
    ensures
        r == validate_schur_input_spec(*opts, finite, square, symmetric_within_tol),
{
    if !opts.do_safety_checks {
        return Ok(());
    }
    if !finite {
        return Err(QRError::NotFinite);
    }
    if !square {
        return Err(QRError::NotSquare);
    }
    if opts.algorithm == QRAlgorithm::Symmetric && !symmetric_within_tol {
        return Err(QRError::NotSymmetric);
    }
    Ok(())
}

/// What `validate_schur_input` returns.
pub open spec fn validate_schur_input_spec(
    opts: SchurOptions,
    finite: bool,
    square: bool,
    symmetric_within_tol: bool,
) -> Result<(), QRError> {
    if !opts.do_safety_checks {
        Ok(())
    } else if !finite {
        Err(QRError::NotFinite)
    } else if !square {
        Err(QRError::NotSquare)
    } else if opts.algorithm == QRAlgorithm::Symmetric && !symmetric_within_tol {
        Err(QRError::NotSymmetric)
    } else {
        Ok(())
    }
}

/// The verdict of the basic QR and Hessenberg entry points, which require a
/// finite square matrix but never reject asymmetry.
pub fn validate_square_input(opts: &SchurOptions, finite: bool, square: bool) -> (r: Result<
    (),
    QRError,
>)
    ensures
        !opts.do_safety_checks ==> r == Ok::<(), QRError>(()),
        opts.do_safety_checks && !finite ==> r == Err::<(), QRError>(QRError::NotFinite),
        opts.do_safety_checks && finite && !square ==> r == Err::<(), QRError>(QRError::NotSquare),
        opts.do_safety_checks && finite && square ==> r == Ok::<(), QRError>(()),
{
    if !opts.do_safety_checks {
        return Ok(());
    }
    if !finite {
        return Err(QRError::NotFinite);
    }
    if !square {
        return Err(QRError::NotSquare);
    }
    Ok(())
}

/// The verdict of the singular value decomposition entry point, which accepts
/// rectangular matrices and requires only finite entries.
pub fn validate_svd_input(opts: &SchurOptions, finite: bool) -> (r: Result<(), QRError>)
    ensures
        r == (if opts.do_safety_checks && !finite {
            Err::<(), QRError>(QRError::NotFinite)
        } else {
            Ok::<(), QRError>(())
        }),
{
    if opts.do_safety_checks && !finite {
        return Err(QRError::NotFinite);
    }
    Ok(())
}

/// Whether the singular value decomposition works on the transpose: with
/// more rows than columns the Gram matrix of the transpose is the smaller
/// one, which bounds the cost of the symmetric iteration.
pub fn svd_transpose_first(rows: usize, cols: usize) -> (r: bool)
    ensures
        r == (rows > cols),
{
    rows > cols
}

/// The residual structure that convergence is measured against.
///
/// `Triangular` demands (near-)zero below the diagonal; `SubTriangular`
/// tolerates the first subdiagonal, where unresolved 2x2 blocks of the
/// Francis iteration live.
#[derive(Debug, Clone, Copy, PartialEq, Eq, Structural)]
pub enum Residual {
    Triangular,
    SubTriangular,
}

/// Which residual the post-hoc convergence check of each algorithm measures:
/// the Francis result is only quasi-triangular, every other variant must be
/// triangular.
pub fn required_residual(algorithm: QRAlgorithm) -> (r: Residual)
    ensures
        r == (if algorithm == QRAlgorithm::Francis {
            Residual::SubTriangular
        } else {
            Residual::Triangular
        }),
{
    match algorithm {
        QRAlgorithm::Francis => Residual::SubTriangular,
        _ => Residual::Triangular,
    }
}

/// The verdict reached after the iteration ran: with safety checks on, a
/// residual still above tolerance is a convergence failure; with them off,
/// every outcome passes.
pub fn convergence_verdict(opts: &SchurOptions, residual_within_tol: bool) -> (r: Result<
    (),
    QRError,
>)
    ensures
        r == (if opts.do_safety_checks && !residual_within_tol {
            Err::<(), QRError>(QRError::ConvergenceFailed)
        } else {
            Ok::<(), QRError>(())
        }),
{
    if opts.do_safety_checks && !residual_within_tol {
        return Err(QRError::ConvergenceFailed);
    }
    Ok(())
}

/// With safety checks enabled, handing the symmetric algorithm a matrix
/// whose deviation from symmetry is above tolerance is always rejected as
/// `NotSymmetric`, whatever else holds of the input.
pub proof fn lemma_symmetric_rejection(opts: SchurOptions, finite: bool, square: bool)
    requires
        opts.do_safety_checks,
        opts.algorithm == QRAlgorithm::Symmetric,
        finite,
        square,
    ensures
        validate_schur_input_spec(opts, finite, square, false) == Err::<(), QRError>(
            QRError::NotSymmetric,
        ),
{
}

} // verus!

