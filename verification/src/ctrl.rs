//! The control channel of a device: the commands that add, start, stop,
//! remove and configure it.
//!
//! Every operation of the channel builds the record of one command. The
//! caller sends the record to the driver, waits for the completion and hands
//! its result to `ublk_ctrl_cmd`.
use vstd::prelude::*;
use crate::affinity::UblkQueueAffinity;
use crate::dev::UblkDev;
use crate::error::UblkError;
use crate::json::json_empty_object;
use crate::json::json_member;
use crate::json::json_model;
use crate::json::json_text;
use crate::json::json_to_string;
use crate::json::spec_json_member;
use crate::json::spec_no_members;
use crate::json::JsonModel;
use crate::recovery::run_json;
use crate::recovery::spec_run_json;
use crate::recovery::spec_run_path;
use crate::recovery::ublk_run_path;
use crate::sys::ublk_params;
use crate::sys::ublksrv_ctrl_cmd;
use crate::sys::ublksrv_ctrl_dev_info;
use crate::sys::UBLK_CMD_ADD_DEV;
use crate::sys::UBLK_CMD_DEL_DEV;
use crate::sys::UBLK_CMD_GET_DEV_INFO;
use crate::sys::UBLK_CMD_GET_PARAMS;
use crate::sys::UBLK_CMD_GET_QUEUE_AFFINITY;
use crate::sys::UBLK_CMD_SET_PARAMS;
use crate::sys::UBLK_CMD_START_DEV;
use crate::sys::UBLK_CMD_STOP_DEV;
use crate::sys::UBLK_DEV_INFO_SIZE;
use crate::sys::UBLK_PARAMS_SIZE;

verus! {

/// Command flag: the command carries its inline data word.
pub const CTRL_CMD_HAS_DATA: u32 = 1;

/// Command flag: the command carries an out-of-band buffer.
pub const CTRL_CMD_HAS_BUF: u32 = 2;

/// Largest buffer size per request that a new device asks for.
pub const UBLK_DEFAULT_IO_BUF_BYTES: u32 = 524288;

/// One command of the control channel, as an operation describes it.
#[derive(Debug, Copy, Clone, PartialEq, Eq)]
pub struct UblkCtrlCmdData {
    /// The command code.
    pub cmd_op: u32,
    /// Which of the fields below count.
    pub flags: u32,
    /// Inline data words; the driver takes the first.
    pub data: [u64; 2],
    /// Address of the out-of-band buffer.
    pub addr: u64,
    /// Length of the out-of-band buffer.
    pub len: u32,
}

/// The payload that goes to the driver for a command on device `dev_id`:
/// buffer address and length where the command carries a buffer, the first
/// data word where it carries data, zero in their place where it does not,
/// and no queue.
pub open spec fn spec_ctrl_prep_cmd(dev_id: u32, data: UblkCtrlCmdData) -> ublksrv_ctrl_cmd {
    ublksrv_ctrl_cmd {
        dev_id,
        queue_id: u16::MAX,
        len: if data.flags & CTRL_CMD_HAS_BUF != 0 {
            data.len as u16
        } else {
            0
        },
        addr: if data.flags & CTRL_CMD_HAS_BUF != 0 {
            data.addr
        } else {
            0
        },
        data: if data.flags & CTRL_CMD_HAS_DATA != 0 {
            data.data[0]
        } else {
            0
        },
    }
}

/// Builds the payload that goes to the driver for a command on device `dev_id`.
pub fn ublk_ctrl_prep_cmd(dev_id: u32, data: &UblkCtrlCmdData) -> (cmd: ublksrv_ctrl_cmd)
    ensures
        cmd == spec_ctrl_prep_cmd(dev_id, *data),
        data.flags & CTRL_CMD_HAS_BUF != 0 && data.len <= u16::MAX ==> cmd.len == data.len,
{
    ublksrv_ctrl_cmd {
        addr: if (data.flags & CTRL_CMD_HAS_BUF) != 0 {
            data.addr
        } else {
            0
        },
        len: if (data.flags & CTRL_CMD_HAS_BUF) != 0 {
            #[verifier::truncate]
            (data.len as u16)
        } else {
            0
        },
        data: if (data.flags & CTRL_CMD_HAS_DATA) != 0 {
            data.data[0]
        } else {
            0
        },
        dev_id,
        queue_id: u16::MAX,
    }
}

/// Takes the result with which the driver completed a control command: zero
/// is success, anything else is the error `UblkError::CtrlCmd` of that result.
pub fn ublk_ctrl_cmd(res: i32) -> (r: Result<i32, UblkError>)
    ensures
        r == if res == 0 {
            Ok::<i32, UblkError>(0)
        } else {
            Err::<i32, UblkError>(UblkError::CtrlCmd(res))
        },
{
    match res {
        0 => Ok(0),
        e => Err(UblkError::CtrlCmd(e)),
    }
}

/// The control channel of one device.
pub struct UblkCtrl {
    /// Identity and geometry of the device, as the driver last reported them.
    pub dev_info: ublksrv_ctrl_dev_info,
    /// The recovery document of the device.
    pub json: serde_json::Value,
    /// Whether the channel owns its device: it added it and will remove it.
    pub for_add: bool,
    /// Address at which the device-info record lies for the driver.
    pub info_addr: u64,
}

/// The command without buffer and data that has the code `cmd_op`.
pub open spec fn spec_plain_cmd(cmd_op: u32) -> UblkCtrlCmdData {
    UblkCtrlCmdData { cmd_op, flags: 0, data: [0, 0], addr: 0, len: 0 }
}

/// The command `cmd_op` whose buffer is the device-info record at `info_addr`.
pub open spec fn spec_info_cmd(cmd_op: u32, info_addr: u64) -> UblkCtrlCmdData {
    UblkCtrlCmdData {
        cmd_op,
        flags: CTRL_CMD_HAS_BUF,
        data: [0, 0],
        addr: info_addr,
        len: UBLK_DEV_INFO_SIZE,
    }
}

/// The command `cmd_op` whose buffer is the parameter record at `addr`.
pub open spec fn spec_params_cmd(cmd_op: u32, addr: u64) -> UblkCtrlCmdData {
    UblkCtrlCmdData {
        cmd_op,
        flags: CTRL_CMD_HAS_BUF,
        data: [0, 0],
        addr,
        len: UBLK_PARAMS_SIZE,
    }
}

/// The device-info record that a new channel starts with.
pub open spec fn spec_new_dev_info(
    id: i32,
    nr_queues: u32,
    depth: u32,
    pid: i32,
) -> ublksrv_ctrl_dev_info {
    ublksrv_ctrl_dev_info {
        nr_hw_queues: nr_queues as u16,
        queue_depth: depth as u16,
        max_io_buf_bytes: UBLK_DEFAULT_IO_BUF_BYTES,
        dev_id: id as u32,
        ublksrv_pid: pid,
        ..ublksrv_ctrl_dev_info::spec_zeroed()
    }
}

impl UblkCtrl {
    /// Makes the channel of device `id` (below zero: the driver picks the id)
    /// with `nr_queues` queues of `depth` slots, served by process `pid`.
    /// `info_addr` is the address at which the device-info record lies for
    /// the driver. With `for_add` the channel owns the device, and the
    /// command that adds the device comes back for the caller to send first.
    pub fn new(
        id: i32,
        nr_queues: u32,
        depth: u32,
        for_add: bool,
        pid: i32,
        info_addr: u64,
    ) -> (r: (UblkCtrl, Option<UblkCtrlCmdData>))
        ensures
            r.0.dev_info == spec_new_dev_info(id, nr_queues, depth, pid),
            json_model(r.0.json) == JsonModel::Object(spec_no_members()),
            r.0.for_add == for_add,
            r.0.info_addr == info_addr,
            r.1 == if for_add {
                Some(spec_info_cmd(UBLK_CMD_ADD_DEV, info_addr))
            } else {
                None
            },
    {
        let info = ublksrv_ctrl_dev_info {
            nr_hw_queues: #[verifier::truncate]
            (nr_queues as u16),
            queue_depth: #[verifier::truncate]
            (depth as u16),
            state: 0,
            pad0: 0,
            max_io_buf_bytes: UBLK_DEFAULT_IO_BUF_BYTES,
            dev_id: #[verifier::truncate]
            (id as u32),
            ublksrv_pid: pid,
            pad1: 0,
            flags: 0,
            ublksrv_flags: 0,
            owner_uid: 0,
            owner_gid: 0,
            reserved1: 0,
            reserved2: 0,
        };
        let dev = UblkCtrl { dev_info: info, json: json_empty_object(), for_add, info_addr };
        let first = if dev.for_add {
            Some(dev.add())
        } else {
            None
        };
        (dev, first)
    }

    /// The command that adds the device: the driver reads the device-info
    /// record and writes it back with the id it assigned.
    fn add(&self) -> (data: UblkCtrlCmdData)
        ensures
            data == spec_info_cmd(UBLK_CMD_ADD_DEV, self.info_addr),
    {
        UblkCtrlCmdData {
            cmd_op: UBLK_CMD_ADD_DEV,
            flags: CTRL_CMD_HAS_BUF,
            addr: self.info_addr,
            len: UBLK_DEV_INFO_SIZE,
            data: [0, 0],
        }
    }

    /// The command that removes the device.
    pub fn del(&self) -> (data: UblkCtrlCmdData)
        ensures
            data == spec_plain_cmd(UBLK_CMD_DEL_DEV),
    {
        UblkCtrlCmdData { cmd_op: UBLK_CMD_DEL_DEV, flags: 0, data: [0, 0], addr: 0, len: 0 }
    }

    /// The command that reads the device-info record back from the driver.
    pub fn get_info(&self) -> (data: UblkCtrlCmdData)
        ensures
            data == spec_info_cmd(UBLK_CMD_GET_DEV_INFO, self.info_addr),
    {
        UblkCtrlCmdData {
            cmd_op: UBLK_CMD_GET_DEV_INFO,
            flags: CTRL_CMD_HAS_BUF,
            addr: self.info_addr,
            len: UBLK_DEV_INFO_SIZE,
            data: [0, 0],
        }
    }

    /// The command that starts the device, served by process `pid`.
    pub fn start(&self, pid: i32) -> (data: UblkCtrlCmdData)
        ensures
            data == (UblkCtrlCmdData {
                cmd_op: UBLK_CMD_START_DEV,
                flags: CTRL_CMD_HAS_DATA,
                data: [pid as u64, 0],
                addr: 0,
                len: 0,
            }),
    {
        UblkCtrlCmdData {
            cmd_op: UBLK_CMD_START_DEV,
            flags: CTRL_CMD_HAS_DATA,
            data: [
                #[verifier::truncate]
                (pid as u64),
                0,
            ],
            addr: 0,
            len: 0,
        }
    }

    /// The command that stops the device.
    pub fn stop(&self) -> (data: UblkCtrlCmdData)
        ensures
            data == spec_plain_cmd(UBLK_CMD_STOP_DEV),
    {
        UblkCtrlCmdData { cmd_op: UBLK_CMD_STOP_DEV, flags: 0, data: [0, 0], addr: 0, len: 0 }
    }

    /// The command that fetches the parameters of the device into `params`,
    /// which lies at `addr` for the driver. The length field of `params` is
    /// set to the size of the record, by which the driver knows its version.
    pub fn get_params(&self, params: &mut ublk_params, addr: u64) -> (data: UblkCtrlCmdData)
        ensures
            *final(params) == (ublk_params { len: UBLK_PARAMS_SIZE, ..*old(params) }),
            data == spec_params_cmd(UBLK_CMD_GET_PARAMS, addr),
    {
        params.len = UBLK_PARAMS_SIZE;
        UblkCtrlCmdData {
            cmd_op: UBLK_CMD_GET_PARAMS,
            flags: CTRL_CMD_HAS_BUF,
            addr,
            len: params.len,
            data: [0, 0],
        }
    }

    /// The command that pushes parameters to the device, with the record to
    /// lay down at `addr` for the driver: `params` with its length field set
    /// to the size of the record.
    pub fn set_params(&self, params: &ublk_params, addr: u64) -> (r: (ublk_params, UblkCtrlCmdData))
        ensures
            r.0 == (ublk_params { len: UBLK_PARAMS_SIZE, ..*params }),
            r.1 == spec_params_cmd(UBLK_CMD_SET_PARAMS, addr),
    {
        let mut p = *params;
        p.len = UBLK_PARAMS_SIZE;
        let data = UblkCtrlCmdData {
            cmd_op: UBLK_CMD_SET_PARAMS,
            flags: CTRL_CMD_HAS_BUF,
            addr,
            len: p.len,
            data: [0, 0],
        };
        (p, data)
    }

    /// The command that reads the affinity of queue `q` into `bm`: the queue
    /// index is the data word, the bitmap of `bm` the buffer.
    pub fn get_queue_affinity(&self, q: u32, bm: &mut UblkQueueAffinity) -> (data: UblkCtrlCmdData)
        ensures
            *final(bm) == *old(bm),
            data.cmd_op == UBLK_CMD_GET_QUEUE_AFFINITY,
            data.flags == CTRL_CMD_HAS_BUF | CTRL_CMD_HAS_DATA,
            data.data == [q as u64, 0],
            data.len == 128,
    {
        UblkCtrlCmdData {
            cmd_op: UBLK_CMD_GET_QUEUE_AFFINITY,
            flags: CTRL_CMD_HAS_BUF | CTRL_CMD_HAS_DATA,
            addr: bm.addr(),
            data: [q as u64, 0],
            len: bm.buf_len() as u32,
        }
    }

    /// What is left to do when the channel goes away: a channel that owns
    /// its device removes it, another does nothing.
    pub fn drop_cmd(&self) -> (data: Option<UblkCtrlCmdData>)
        ensures
            data == if self.for_add {
                Some(spec_plain_cmd(UBLK_CMD_DEL_DEV))
            } else {
                None
            },
    {
        if self.for_add {
            Some(self.del())
        } else {
            None
        }
    }

    /// What is to be written to keep the recovery document: the path of the
    /// file, below the directory `tmp_dir` for temporary files, and the text
    /// of the document.
    pub fn flush_json(&self, tmp_dir: &str) -> (r: (String, String))
        ensures
            r.0@ == spec_run_path(tmp_dir@, self.dev_info.dev_id),
            r.1@ == json_text(json_model(self.json)),
    {
        let run_path = ublk_run_path(tmp_dir, self.dev_info.dev_id);
        (run_path, json_to_string(&self.json))
    }

    /// Makes the recovery document of the device from `dev` and from one
    /// entry of `qdata` for each queue, its affinity and the thread that
    /// serves it. The backend's own member is kept from the document that
    /// the channel held before.
    pub fn build_json(&mut self, dev: &UblkDev, qdata: Vec<(UblkQueueAffinity, i32)>)
        ensures
            json_model(final(self).json) == spec_run_json(
                *dev,
                spec_json_member(json_model(old(self).json), "target_data"@),
                qdata@,
            ),
            final(self).dev_info == old(self).dev_info,
            final(self).for_add == old(self).for_add,
            final(self).info_addr == old(self).info_addr,
    {
        let tgt_data = json_member(&self.json, "target_data");
        self.json = run_json(dev, tgt_data, &qdata);
    }
}

} // verus!
