//! The verified core of AI Creator Studio: the rules by which the studio
//! finds and installs its engine runtime, checks the machine, starts up,
//! runs and tracks generation jobs, reads the engine adapter's answers, and
//! keeps the asset manifest.
use vstd::prelude::*;

pub mod text;
pub mod json;
pub mod paths;
pub mod process;
pub mod hardware;
pub mod capabilities;
pub mod assets;
pub mod jobs;
pub mod model_catalog;
pub mod models;
pub mod project;
pub mod runtime;
pub mod system_check;
pub mod startup;
pub mod engine;
pub mod worker;
