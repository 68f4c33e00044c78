//! Launches a bundled native binary: picks the asset subfolder for the host
//! platform, plans the extraction of the bundled files into a workspace,
//! names the binary, its mode and its argument, and drives the run from one
//! step to the next.
use vstd::prelude::*;

pub mod assets;
pub mod extract;
pub mod launch;
pub mod paths;
pub mod platform;
pub mod run;
pub mod text;

verus! {

} // verus!
