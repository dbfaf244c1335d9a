//! Control core for a real Schur decomposition engine.
//!
//! The numerical kernels of the QR-iteration family (Householder reflections,
//! Givens rotations, the shifted sweeps themselves) act on floating-point
//! matrices; this crate holds everything around them that can be stated and
//! proved exactly: input-validation and convergence verdicts, the dispatch
//! from an algorithm choice to its sequence of phases, the deflation state
//! machines that drive the Francis and symmetric iterations and bound their
//! running time, the index windows of the bulge chase and the reductions, the
//! walk that reads eigenvalue blocks off a quasi-triangular result, and the
//! ordering of singular values.

mod control;
mod eigen;
mod sort;
mod types;
mod validate;
mod windows;

pub use control::BlockAction;
pub use control::BlockSweep;
pub use control::FrancisAction;
pub use control::FrancisControl;
pub use control::SymmetricControl;
pub use control::lemma_francis_terminates;
pub use control::lemma_symmetric_terminates;
pub use eigen::EigBlock;
pub use eigen::eig_layout;
pub use eigen::eigenvalue_blocks;
pub use eigen::lemma_eig_layout_complete;
pub use eigen::lemma_eig_layout_disjoint;
pub use eigen::lemma_eig_layout_in_bounds;
pub use eigen::total_width;
pub use sort::sort_descending;
pub use sort::sorts_before;
pub use types::QRAlgorithm;
pub use types::QRError;
pub use types::SchurOptions;
pub use validate::Phase;
pub use validate::Residual;
pub use validate::convergence_verdict;
pub use validate::lemma_symmetric_rejection;
pub use validate::pipeline;
pub use validate::pipeline_spec;
pub use validate::required_residual;
pub use validate::svd_transpose_first;
pub use validate::validate_schur_input;
pub use validate::validate_schur_input_spec;
pub use validate::validate_square_input;
pub use validate::validate_svd_input;
pub use windows::ChaseStep;
pub use windows::CleanupStep;
pub use windows::GivensSweepStep;
pub use windows::HessenbergStep;
pub use windows::Span;
pub use windows::TridiagonalStep;
pub use windows::chase_step;
pub use windows::cleanup_step;
pub use windows::givens_sweep_step;
pub use windows::hessenberg_step;
pub use windows::tridiagonal_step;
