//! Planning for an Android performance tuner: from what was read of the
//! device, the writes, property changes and commands that the boot
//! sequence, the three profiles and the utility requests call for.
pub mod boot;
pub mod bypass;
pub mod cli;
pub mod cpufreq;
pub mod devfreq;
pub mod freq;
pub mod gpu;
pub mod num;
pub mod plan;
pub mod probe;
pub mod profile;
pub mod qcom;
pub mod scan;
pub mod sched;
pub mod soc;
pub mod text;
pub mod thermal;
pub mod tune;
