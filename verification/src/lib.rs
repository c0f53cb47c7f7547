//! A Monte Carlo projection of a household's assets from its current age to
//! a last simulated age, through the years of saving and the years of
//! retirement, and the share of the simulated runs that end without debt.
//!
//! The library computes in fixed-point numbers. Ages are whole years.
//! Amounts, rates, volatilities, standard-normal draws and the success
//! probability are counted in millionths ([`SCALE`] stands for one);
//! products and quotients are rounded down to a millionth, and what would
//! leave the range of an `i64` stays at its nearest bound.
//!
//! The randomness of a simulation is handed in: [`aggregate`] takes, for each
//! run, the standard-normal draws that the run consumes, so that the same
//! draws give the same results. [`try_draw_uniform`] makes the uniform draws
//! from which a caller computes such a draw.

pub mod aggregate;
pub mod fixed;
pub mod laws;
pub mod params;
pub mod sampler;
pub mod trajectory;
pub mod translations;

pub use aggregate::{aggregate, SimulationResults};
pub use fixed::SCALE;
pub use params::{SimulationError, SimulationParameters};
pub use sampler::{sample_normal, try_draw_uniform, uniform_numerator, UNIFORM_DENOMINATOR};
pub use trajectory::{effective_return, simulate_one_run, RunOutcome};
pub use translations::{get_translations, Translations};
