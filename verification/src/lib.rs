//! Exponential function by shift and add.
//!
//! The library evaluates `e^x` in Q16 fixed point without multiplication or
//! division: `e^x` is decomposed into a product of factors of the form
//! `2^k` (for positive shifts `k`) and `1 + 2^k` (for shifts `k <= 0`), each
//! of which is applied to an accumulator by a single shift and add. A
//! precomputed table carries the Q16 logarithm of every factor; a step
//! selector walks the table to pick the largest factor whose logarithm still
//! fits under the remaining residual.

mod evaluator;
mod selector;
mod table;

pub use evaluator::exp_no_mul_div_fp;
pub use evaluator::sh_fp;
pub use evaluator::spec_apply_factor;
pub use evaluator::spec_exp_fp;
pub use evaluator::spec_fp_loop;
pub use evaluator::ExpError;
pub use selector::generate_k;
pub use selector::lemma_generate_k_char;
pub use selector::lemma_step_reduces;
pub use selector::spec_generate_k;
pub use table::k_shift_to_ln_k;
pub use table::lemma_ln_fp_monotone;
pub use table::lemma_ln_fp_nonneg;
pub use table::ln_fp;
pub use table::FP_ONE;
pub use table::MAX_FP_TARGET;
pub use table::Q;
