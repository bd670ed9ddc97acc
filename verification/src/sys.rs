//! The interface of the ublk kernel driver: command codes, result codes and
//! the fixed-layout records exchanged with it, held here as plain values.
//! Laying a record out in memory is left to the caller that talks to the driver.
use vstd::prelude::*;

verus! {

/// Control command: read the CPU affinity of one queue.
pub const UBLK_CMD_GET_QUEUE_AFFINITY: u32 = 0x01;

/// Control command: read the device-info record back from the driver.
pub const UBLK_CMD_GET_DEV_INFO: u32 = 0x02;

/// Control command: create the device.
pub const UBLK_CMD_ADD_DEV: u32 = 0x04;

/// Control command: remove the device.
pub const UBLK_CMD_DEL_DEV: u32 = 0x05;

/// Control command: start serving the device.
pub const UBLK_CMD_START_DEV: u32 = 0x06;

/// Control command: stop serving the device.
pub const UBLK_CMD_STOP_DEV: u32 = 0x07;

/// Control command: push the parameter record.
pub const UBLK_CMD_SET_PARAMS: u32 = 0x08;

/// Control command: fetch the parameter record.
pub const UBLK_CMD_GET_PARAMS: u32 = 0x09;

/// Queue command: ask the driver for the slot's next request.
pub const UBLK_IO_FETCH_REQ: u32 = 0x20;

/// Queue command: return the slot's result and ask for its next request.
pub const UBLK_IO_COMMIT_AND_FETCH_REQ: u32 = 0x21;

/// Result of a queue command that delivered a request.
pub const UBLK_IO_RES_OK: i32 = 0;

/// The "no such device" error number.
pub const ENODEV: i32 = 19;

/// Result of a queue command that the driver aborted: the device is going away.
pub const UBLK_IO_RES_ABORT: i32 = -19;

/// Offset in the character device at which the descriptor arrays start.
pub const UBLKSRV_CMD_BUF_OFFSET: u32 = 0;

/// Largest queue depth the driver supports; it fixes the stride between the
/// descriptor arrays of two queues.
pub const UBLK_MAX_QUEUE_DEPTH: u32 = 4096;

/// Size in bytes of one request descriptor.
pub const UBLK_IO_DESC_SIZE: u32 = 24;

/// Size in bytes of the device-info record.
pub const UBLK_DEV_INFO_SIZE: u32 = 64;

/// Size in bytes of the parameter record.
pub const UBLK_PARAMS_SIZE: u32 = 80;

/// Request operation: read.
pub const UBLK_IO_OP_READ: u32 = 0;

/// Request operation: write.
pub const UBLK_IO_OP_WRITE: u32 = 1;

/// Request operation: flush.
pub const UBLK_IO_OP_FLUSH: u32 = 2;

/// Request operation: discard.
pub const UBLK_IO_OP_DISCARD: u32 = 3;

/// Parameter group: basic geometry.
pub const UBLK_PARAM_TYPE_BASIC: u32 = 1;

/// Parameter group: discard limits.
pub const UBLK_PARAM_TYPE_DISCARD: u32 = 2;

/// Parameter group: device numbers.
pub const UBLK_PARAM_TYPE_DEVT: u32 = 4;

/// Identity and negotiated geometry of one device.
#[derive(Clone, Copy, Debug, PartialEq, Eq, Structural)]
pub struct ublksrv_ctrl_dev_info {
    pub nr_hw_queues: u16,
    pub queue_depth: u16,
    pub state: u16,
    pub pad0: u16,
    pub max_io_buf_bytes: u32,
    pub dev_id: u32,
    pub ublksrv_pid: i32,
    pub pad1: u32,
    pub flags: u64,
    pub ublksrv_flags: u64,
    pub owner_uid: u32,
    pub owner_gid: u32,
    pub reserved1: u64,
    pub reserved2: u64,
}

/// The inline payload of a control command.
#[derive(Clone, Copy, Debug, PartialEq, Eq, Structural)]
pub struct ublksrv_ctrl_cmd {
    /// The device the command is sent to.
    pub dev_id: u32,
    /// The queue the command is sent to, or `u16::MAX` when it is for no queue.
    pub queue_id: u16,
    /// Length of the out-of-band buffer.
    pub len: u16,
    /// Address of the out-of-band buffer.
    pub addr: u64,
    /// Inline data word.
    pub data: u64,
}

/// The inline payload of a queue command.
#[derive(Clone, Copy, Debug, PartialEq, Eq, Structural)]
pub struct ublksrv_io_cmd {
    pub q_id: u16,
    /// The slot the command is for.
    pub tag: u16,
    /// Result of the slot's last request; the driver reads it for a commit only.
    pub result: i32,
    /// Address of the slot's buffer.
    pub addr: u64,
}

/// One request as the driver publishes it.
#[derive(Clone, Copy, Debug, PartialEq, Eq, Structural)]
pub struct ublksrv_io_desc {
    /// Operation in bits 0-7, flags in bits 8-31.
    pub op_flags: u32,
    pub nr_sectors: u32,
    pub start_sector: u64,
    pub addr: u64,
}

#[derive(Clone, Copy, Debug, PartialEq, Eq, Structural)]
pub struct ublk_param_basic {
    pub attrs: u32,
    pub logical_bs_shift: u8,
    pub physical_bs_shift: u8,
    pub io_opt_shift: u8,
    pub io_min_shift: u8,
    pub max_sectors: u32,
    pub chunk_sectors: u32,
    pub dev_sectors: u64,
    pub virt_boundary_mask: u64,
}

#[derive(Clone, Copy, Debug, PartialEq, Eq, Structural)]
pub struct ublk_param_discard {
    pub discard_alignment: u32,
    pub discard_granularity: u32,
    pub max_discard_sectors: u32,
    pub max_write_zeroes_sectors: u32,
    pub max_discard_segments: u16,
    pub reserved0: u16,
}

#[derive(Clone, Copy, Debug, PartialEq, Eq, Structural)]
pub struct ublk_param_devt {
    pub char_major: u32,
    pub char_minor: u32,
    pub disk_major: u32,
    pub disk_minor: u32,
}

/// The parameter record of a device.
#[derive(Clone, Copy, Debug, PartialEq, Eq, Structural)]
pub struct ublk_params {
    /// Size of the record as its sender knows it.
    pub len: u32,
    /// Which of the groups below are meant.
    pub types: u32,
    pub basic: ublk_param_basic,
    pub discard: ublk_param_discard,
    pub devt: ublk_param_devt,
}

impl ublksrv_ctrl_dev_info {
    /// The record with every field zero.
    pub open spec fn spec_zeroed() -> ublksrv_ctrl_dev_info {
        ublksrv_ctrl_dev_info {
            nr_hw_queues: 0,
            queue_depth: 0,
            state: 0,
            pad0: 0,
            max_io_buf_bytes: 0,
            dev_id: 0,
            ublksrv_pid: 0,
            pad1: 0,
            flags: 0,
            ublksrv_flags: 0,
            owner_uid: 0,
            owner_gid: 0,
            reserved1: 0,
            reserved2: 0,
        }
    }
}

impl Default for ublksrv_ctrl_dev_info {
    fn default() -> (r: ublksrv_ctrl_dev_info)
        ensures
            r == ublksrv_ctrl_dev_info::spec_zeroed(),
    {
        ublksrv_ctrl_dev_info {
            nr_hw_queues: 0,
            queue_depth: 0,
            state: 0,
            pad0: 0,
            max_io_buf_bytes: 0,
            dev_id: 0,
            ublksrv_pid: 0,
            pad1: 0,
            flags: 0,
            ublksrv_flags: 0,
            owner_uid: 0,
            owner_gid: 0,
            reserved1: 0,
            reserved2: 0,
        }
    }
}

impl ublk_params {
    /// The record with every field zero.
    pub open spec fn spec_zeroed() -> ublk_params {
        ublk_params {
            len: 0,
            types: 0,
            basic: ublk_param_basic {
                attrs: 0,
                logical_bs_shift: 0,
                physical_bs_shift: 0,
                io_opt_shift: 0,
                io_min_shift: 0,
                max_sectors: 0,
                chunk_sectors: 0,
                dev_sectors: 0,
                virt_boundary_mask: 0,
            },
            discard: ublk_param_discard {
                discard_alignment: 0,
                discard_granularity: 0,
                max_discard_sectors: 0,
                max_write_zeroes_sectors: 0,
                max_discard_segments: 0,
                reserved0: 0,
            },
            devt: ublk_param_devt { char_major: 0, char_minor: 0, disk_major: 0, disk_minor: 0 },
        }
    }
}

impl Default for ublk_params {
    fn default() -> (r: ublk_params)
        ensures
            r == ublk_params::spec_zeroed(),
    {
        ublk_params {
            len: 0,
            types: 0,
            basic: ublk_param_basic {
                attrs: 0,
                logical_bs_shift: 0,
                physical_bs_shift: 0,
                io_opt_shift: 0,
                io_min_shift: 0,
                max_sectors: 0,
                chunk_sectors: 0,
                dev_sectors: 0,
                virt_boundary_mask: 0,
            },
            discard: ublk_param_discard {
                discard_alignment: 0,
                discard_granularity: 0,
                max_discard_sectors: 0,
                max_write_zeroes_sectors: 0,
                max_discard_segments: 0,
                reserved0: 0,
            },
            devt: ublk_param_devt { char_major: 0, char_minor: 0, disk_major: 0, disk_minor: 0 },
        }
    }
}


/// Size in bytes of a sector, the unit in which a request states where it
/// starts and how long it is.
pub const UBLK_SECTOR_SIZE: u64 = 512;

impl ublksrv_io_desc {
    /// The operation of the request: bits 0-7 of `op_flags`.
    pub open spec fn spec_op(self) -> u32 {
        self.op_flags & 0xff
    }

    /// The flags of the request: bits 8-31 of `op_flags`.
    pub open spec fn spec_flags(self) -> u32 {
        self.op_flags >> 8
    }

    /// The operation of the request.
    pub fn op(&self) -> (op: u32)
        ensures
            op == self.spec_op(),
            op <= 0xff,
    {
        let op_flags = self.op_flags;
        assert(op_flags & 0xff <= 0xff) by (bit_vector);
        self.op_flags & 0xff
    }

    /// The flags of the request.
    pub fn flags(&self) -> (flags: u32)
        ensures
            flags == self.spec_flags(),
    {
        self.op_flags >> 8
    }

    /// The byte at which the request starts: its first sector times the size
    /// of a sector. `None` where that is more than 64 bits hold.
    pub fn byte_offset(&self) -> (off: Option<u64>)
        ensures
            off == if self.start_sector * UBLK_SECTOR_SIZE <= u64::MAX {
                Some((self.start_sector * UBLK_SECTOR_SIZE) as u64)
            } else {
                None
            },
    {
        if self.start_sector > u64::MAX / 512 {
            None
        } else {
            Some(self.start_sector * 512)
        }
    }

    /// The length of the request in bytes: its count of sectors times the
    /// size of a sector. `None` where that is more than `max_io_buf_bytes`,
    /// the largest size that the device agreed to: such a length is not to
    /// be trusted.
    pub fn byte_len(&self, max_io_buf_bytes: u32) -> (len: Option<u32>)
        ensures
            len == if self.nr_sectors * UBLK_SECTOR_SIZE <= max_io_buf_bytes {
                Some((self.nr_sectors * UBLK_SECTOR_SIZE) as u32)
            } else {
                None
            },
    {
        let bytes: u64 = self.nr_sectors as u64 * 512;
        if bytes > max_io_buf_bytes as u64 {
            None
        } else {
            Some(bytes as u32)
        }
    }
}

} // verus!
