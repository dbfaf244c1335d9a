//! Unit tests of the discrete control core: validation verdicts, phase
//! dispatch, the deflation state machines, the eigenvalue block walk, and
//! the singular value ordering.

use schur::BlockAction;
use schur::BlockSweep;
use schur::EigBlock;
use schur::FrancisAction;
use schur::FrancisControl;
use schur::Phase;
use schur::QRAlgorithm;
use schur::QRError;
use schur::Residual;
use schur::SchurOptions;
use schur::SymmetricControl;
use schur::convergence_verdict;
use schur::eigenvalue_blocks;
use schur::pipeline;
use schur::required_residual;
use schur::sort_descending;
use schur::svd_transpose_first;
use schur::validate_schur_input;
use schur::validate_square_input;
use schur::validate_svd_input;

fn default_opts() -> SchurOptions {
    SchurOptions::defaults()
}

#[test]
fn defaults_match_documented_values() {
    let o = default_opts();
    assert_eq!(o.iterations, 100000);
    assert_eq!(o.algorithm, QRAlgorithm::Francis);
    assert!(o.do_safety_checks);
    assert!(o.zero_entries);
    assert!(o.accumulate_sim_transforms);
    let d: SchurOptions = Default::default();
    assert_eq!(d, o);
    let s = SchurOptions::symmetric_defaults();
    assert_eq!(s.algorithm, QRAlgorithm::Symmetric);
    assert_eq!(s.iterations, 100000);
    let e = SchurOptions::eigenvalue_defaults();
    assert_eq!(e.algorithm, QRAlgorithm::Francis);
    assert!(!e.zero_entries);
    assert!(!e.accumulate_sim_transforms);
}

#[test]
fn error_messages() {
    assert_eq!(
        QRError::NotFinite.message(),
        "supplied matrix has infinite or nan entries"
    );
    assert_eq!(QRError::NotSquare.message(), "supplied matrix is not square");
    assert_eq!(
        QRError::NotSymmetric.message(),
        "supplied matrix is not symmetric"
    );
    assert_eq!(
        QRError::ConvergenceFailed.message(),
        "algorithm failed to converge"
    );
}

#[test]
fn validation_order_and_verdicts() {
    let o = default_opts();
    assert_eq!(validate_schur_input(&o, true, true, true), Ok(()));
    assert_eq!(
        validate_schur_input(&o, false, false, false),
        Err(QRError::NotFinite)
    );
    assert_eq!(
        validate_schur_input(&o, true, false, false),
        Err(QRError::NotSquare)
    );
    // the symmetry flag binds only the symmetric algorithm
    assert_eq!(validate_schur_input(&o, true, true, false), Ok(()));
    let mut s = o;
    s.algorithm = QRAlgorithm::Symmetric;
    assert_eq!(
        validate_schur_input(&s, true, true, false),
        Err(QRError::NotSymmetric)
    );
    assert_eq!(validate_schur_input(&s, true, true, true), Ok(()));
    // with safety checks off everything passes
    let mut unchecked = s;
    unchecked.do_safety_checks = false;
    assert_eq!(validate_schur_input(&unchecked, false, false, false), Ok(()));

    assert_eq!(validate_square_input(&o, true, true), Ok(()));
    assert_eq!(
        validate_square_input(&o, false, true),
        Err(QRError::NotFinite)
    );
    assert_eq!(
        validate_square_input(&o, true, false),
        Err(QRError::NotSquare)
    );
    assert_eq!(validate_svd_input(&o, true), Ok(()));
    assert_eq!(validate_svd_input(&o, false), Err(QRError::NotFinite));
    assert_eq!(validate_svd_input(&unchecked, false), Ok(()));
}

#[test]
fn convergence_verdicts() {
    let o = default_opts();
    assert_eq!(convergence_verdict(&o, true), Ok(()));
    assert_eq!(
        convergence_verdict(&o, false),
        Err(QRError::ConvergenceFailed)
    );
    let mut unchecked = o;
    unchecked.do_safety_checks = false;
    assert_eq!(convergence_verdict(&unchecked, false), Ok(()));
}

#[test]
fn residual_kinds() {
    assert_eq!(
        required_residual(QRAlgorithm::Francis),
        Residual::SubTriangular
    );
    assert_eq!(required_residual(QRAlgorithm::Naive), Residual::Triangular);
    assert_eq!(
        required_residual(QRAlgorithm::Hessenberg),
        Residual::Triangular
    );
    assert_eq!(
        required_residual(QRAlgorithm::Symmetric),
        Residual::Triangular
    );
}

#[test]
fn pipelines() {
    assert_eq!(pipeline(QRAlgorithm::Naive), vec![Phase::NaiveSweeps]);
    assert_eq!(
        pipeline(QRAlgorithm::Hessenberg),
        vec![Phase::Reduce, Phase::HessenbergSweeps]
    );
    assert_eq!(
        pipeline(QRAlgorithm::Francis),
        vec![Phase::Reduce, Phase::FrancisIterate, Phase::BlockReduce]
    );
    assert_eq!(
        pipeline(QRAlgorithm::Symmetric),
        vec![Phase::Reduce, Phase::SymmetricIterate]
    );
}

#[test]
fn francis_control_walkthrough() {
    let mut c = FrancisControl::new(5, 10);
    assert_eq!(c.p, 4);
    assert_eq!(c.steps, 0);
    assert!(c.active());
    // a double step costs budget, deflation does not
    assert_eq!(c.advance(false, false), FrancisAction::DoubleStep { p: 4 });
    assert_eq!(c.steps, 1);
    assert_eq!(c.p, 4);
    assert_eq!(c.advance(true, false), FrancisAction::DeflateOne { row: 4, col: 3 });
    assert_eq!(c.steps, 1);
    assert_eq!(c.p, 3);
    assert_eq!(c.advance(false, true), FrancisAction::DeflateTwo { row: 2, col: 1 });
    assert_eq!(c.p, 1);
    assert!(!c.active());
}

#[test]
fn francis_control_exhausts_budget() {
    let mut c = FrancisControl::new(4, 3);
    let mut rounds = 0;
    while c.active() {
        c.advance(false, false);
        rounds += 1;
        assert!(rounds <= 3);
    }
    assert_eq!(rounds, 3);
    assert_eq!(c.p, 3); // nothing deflated: the ceiling stopped the loop
}

#[test]
fn symmetric_control_walkthrough() {
    let mut c = SymmetricControl::new(3, 10);
    assert_eq!(c.p, 2);
    assert!(c.active());
    c.advance(false);
    assert_eq!((c.p, c.steps), (2, 1));
    c.advance(true);
    assert_eq!((c.p, c.steps), (1, 2));
    c.advance(true);
    assert_eq!((c.p, c.steps), (0, 3));
    assert!(!c.active());
}

#[test]
fn symmetric_control_exhausts_budget() {
    let mut c = SymmetricControl::new(6, 4);
    let mut rounds = 0;
    while c.active() {
        c.advance(false);
        rounds += 1;
    }
    assert_eq!(rounds, 4);
    assert_eq!(c.p, 5);
}

#[test]
fn block_sweep_walkthrough() {
    // diagonal walk over a 5x5 matrix: skip, rotate, then the window no
    // longer fits
    let mut s = BlockSweep::new(5);
    assert!(s.active());
    assert_eq!(s.advance(true), BlockAction::Skip);
    assert_eq!(s.i, 1);
    assert_eq!(s.advance(false), BlockAction::Rotate { at: 1 });
    assert_eq!(s.i, 3);
    assert!(s.active());
    assert_eq!(s.advance(false), BlockAction::Rotate { at: 3 });
    assert_eq!(s.i, 5);
    assert!(!s.active());
}

#[test]
fn block_sweep_tiny_matrices() {
    assert!(!BlockSweep::new(0).active());
    assert!(!BlockSweep::new(1).active());
    let mut s = BlockSweep::new(2);
    assert!(s.active());
    assert_eq!(s.advance(false), BlockAction::Rotate { at: 0 });
    assert!(!s.active());
}

#[test]
fn eigenvalue_block_walk() {
    // all subdiagonal entries zero: one real eigenvalue per diagonal row,
    // the final row included
    let blocks = eigenvalue_blocks(&vec![true, true, true]);
    assert_eq!(
        blocks,
        vec![
            EigBlock::Real { at: 0 },
            EigBlock::Real { at: 1 },
            EigBlock::Real { at: 2 },
            EigBlock::Real { at: 3 },
        ]
    );
    // a 2x2 block advances by two
    let blocks = eigenvalue_blocks(&vec![false, true, true]);
    assert_eq!(
        blocks,
        vec![
            EigBlock::Pair { at: 0 },
            EigBlock::Real { at: 2 },
            EigBlock::Real { at: 3 },
        ]
    );
    // a pair ending at the last row steps past it
    let blocks = eigenvalue_blocks(&vec![true, false]);
    assert_eq!(
        blocks,
        vec![EigBlock::Real { at: 0 }, EigBlock::Pair { at: 1 }]
    );
    // a 1x1 matrix has its single eigenvalue
    assert_eq!(eigenvalue_blocks(&Vec::new()), vec![EigBlock::Real { at: 0 }]);
}

#[test]
fn sort_descending_orders_and_is_stable() {
    let keys: Vec<u64> = vec![5, 9, 1, 9, 7];
    let perm = sort_descending(&keys);
    assert_eq!(perm, vec![1, 3, 4, 0, 2]); // both nines, in original order
    let keys: Vec<u64> = vec![3, 3, 3];
    assert_eq!(sort_descending(&keys), vec![0, 1, 2]);
    let empty: Vec<u64> = Vec::new();
    assert_eq!(sort_descending(&empty), Vec::<usize>::new());
    let single: Vec<u64> = vec![42];
    assert_eq!(sort_descending(&single), vec![0]);
    // already descending stays put; ascending reverses
    assert_eq!(sort_descending(&vec![4, 3, 2, 1]), vec![0, 1, 2, 3]);
    assert_eq!(sort_descending(&vec![1, 2, 3, 4]), vec![3, 2, 1, 0]);
}

#[test]
fn window_formulas() {
    let w = schur::hessenberg_step(0, 5);
    assert_eq!((w.tail.lo, w.tail.hi), (1, 5));
    assert_eq!((w.left_cols.lo, w.left_cols.hi), (0, 5));
    assert_eq!((w.right_cols.lo, w.right_cols.hi), (1, 5));

    let w = schur::givens_sweep_step(2, 5);
    assert_eq!((w.rows.lo, w.rows.hi), (2, 4));
    assert_eq!((w.left_cols.lo, w.left_cols.hi), (2, 5));
    assert_eq!((w.right_rows.lo, w.right_rows.hi), (0, 4));

    // chase start: the left window reaches the leading column, the right
    // window is clipped at k + 4, and the seed's third entry refreshes
    let w = schur::chase_step(0, 4, 6);
    assert_eq!((w.rows.lo, w.rows.hi), (0, 3));
    assert_eq!((w.left_cols.lo, w.left_cols.hi), (0, 6));
    assert_eq!((w.right_rows.lo, w.right_rows.hi), (0, 4));
    assert!(w.refresh_third);

    // chase end: the left window is widened by one for fill-in, the right
    // window is clipped at p + 1, and the seed refresh stops
    let w = schur::chase_step(2, 4, 6);
    assert_eq!((w.rows.lo, w.rows.hi), (2, 5));
    assert_eq!((w.left_cols.lo, w.left_cols.hi), (1, 6));
    assert_eq!((w.right_rows.lo, w.right_rows.hi), (0, 5));
    assert!(!w.refresh_third);

    let w = schur::cleanup_step(4, 6);
    assert_eq!((w.rows.lo, w.rows.hi), (3, 5));
    assert_eq!((w.left_cols.lo, w.left_cols.hi), (2, 6));
    assert_eq!((w.right_rows.lo, w.right_rows.hi), (0, 5));

    let w = schur::tridiagonal_step(0, 3, 5);
    assert_eq!(w.at, 0);
    assert!(!w.write_back);
    assert!(w.extend);
    assert_eq!((w.u_cols.lo, w.u_cols.hi), (0, 2));
    let w = schur::tridiagonal_step(2, 3, 5);
    assert!(w.write_back);
    assert!(!w.extend);
    assert_eq!((w.u_cols.lo, w.u_cols.hi), (2, 4));
}

#[test]
fn svd_orientation() {
    assert!(svd_transpose_first(6, 4));
    assert!(!svd_transpose_first(4, 6));
    assert!(!svd_transpose_first(4, 4));
}
