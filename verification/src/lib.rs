//! Userspace side of the ublk block-device protocol: the device-control
//! channel, the device descriptor and the per-queue dispatch engine, as
//! verified state machines over plain values. Talking to the driver (the
//! completion ring, the memory mappings, the files) is the caller's part.
#![allow(non_snake_case, non_camel_case_types)]

pub mod affinity;
pub mod ctrl;
pub mod dev;
pub mod error;
pub mod io;
pub mod io_laws;
pub mod json;
pub mod longhorn_rpc_protocal;
pub mod recovery;
pub mod sys;
pub mod user_data;
pub mod util;

pub use crate::affinity::UblkQueueAffinity;
pub use crate::ctrl::ublk_ctrl_cmd;
pub use crate::ctrl::ublk_ctrl_prep_cmd;
pub use crate::ctrl::UblkCtrl;
pub use crate::ctrl::UblkCtrlCmdData;
pub use crate::dev::UblkDev;
pub use crate::dev::UblkTgt;
pub use crate::dev::UblkTgtData;
pub use crate::dev::UblkTgtOps;
pub use crate::error::UblkError;
pub use crate::io::cmd_buf_off;
pub use crate::io::cmd_buf_sz;
pub use crate::io::UblkCqe;
pub use crate::io::UblkIO;
pub use crate::io::UblkIoCmd;
pub use crate::io::UblkQueue;
pub use crate::io::UblkQueueOps;
pub use crate::io::UblkReaped;
pub use crate::recovery::ublk_run_path;
pub use crate::user_data::build_user_data;
pub use crate::user_data::is_target_io;
pub use crate::user_data::user_data_to_op;
pub use crate::user_data::user_data_to_tag;
pub use crate::user_data::user_data_to_tgt_data;
pub use crate::util::round_up;
