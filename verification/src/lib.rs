//! OptiPC's library: the rules of a Windows tuning tool, each with its contract.
//!
//! - `text`: characters, trimming, splitting, lines, decimal numbers, order.
//! - `tweaks`: the scripts that apply and revert each system tweak, what a run
//!   reports, and the tweak states read back.
//! - `cleaning`: temporary folders, cleaning categories, what a scan lists and
//!   what cleaning removes.
//! - `games`: Steam and Epic Games manifests and the sorted list of games.
//! - `processes`: game detection, priority scripts, ending a process.
//! - `startup`: programs started with the session.
//! - `gpu`: graphics card statistics from `nvidia-smi` or WMI.
//! - `system`: system description, benchmark scores, disks, sensors, network
//!   rows, memory and the page file.

pub mod cleaning;
pub mod games;
pub mod gpu;
pub mod processes;
pub mod startup;
pub mod system;
pub mod text;
pub mod tweaks;
