//! A window-control facade: the decision logic behind four window commands
//! (set a display-mode preset, toggle fullscreen, query fullscreen, quit).
//!
//! The facade itself is a thin bridge between a front-end process and the
//! host framework's window object.  The logic that is worth stating lives
//! here: which preset a request string selects, which platform calls each
//! preset issues and in what order, what those calls do to the window's
//! presentation attributes, and what the toggle and query commands decide
//! from a platform read.  The host glue that performs the actual platform
//! calls sits outside this crate and consumes these decisions.

pub mod facade;
pub mod mode;
pub mod window;
