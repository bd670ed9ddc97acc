//! The device descriptor: what is known of one block device while it is served.
use vstd::prelude::*;
use crate::ctrl::UblkCtrl;
use crate::error::UblkError;
use crate::sys::ublk_params;
use crate::sys::ublksrv_ctrl_dev_info;

verus! {

/// Number of entries in the file table of a device.
pub const UBLK_MAX_FDS: usize = 32;

/// What the backend says of the target it serves.
#[derive(Debug, Clone)]
pub struct UblkTgt {
    pub tgt_type: String,
    /// Capacity of the device in bytes.
    pub dev_size: u64,
    pub params: ublk_params,
}

/// The file table of a device, with a word of the backend's own.
///
/// Entry 0 is the character device of the driver; the backend appends
/// its own files behind it. `nr_fds` counts the entries in use.
#[derive(Debug, Clone, Copy)]
pub struct UblkTgtData {
    pub fds: [i32; 32],
    pub nr_fds: i32,
    pub data: Option<u64>,
}

/// One block device: its identity and geometry, its target and its file table.
#[derive(Debug)]
pub struct UblkDev {
    pub dev_info: ublksrv_ctrl_dev_info,
    pub tgt: UblkTgt,
    pub tdata: UblkTgtData,
}

impl UblkTgtData {
    /// The count of entries in use is within the table.
    pub open spec fn wf(&self) -> bool {
        0 <= self.nr_fds <= 32
    }

    /// The entries in use, in table order.
    pub open spec fn spec_fds_in_use(&self) -> Seq<i32> {
        self.fds@.subrange(0, self.nr_fds as int)
    }

    /// The entries in use, in table order: what a queue registers with its ring.
    pub fn fds_in_use(&self) -> (fds: &[i32])
        requires
            self.wf(),
        ensures
            fds@ == self.spec_fds_in_use(),
    {
        let n = self.nr_fds as usize;
        let all = self.fds.as_slice();
        &all[0..n]
    }

    /// Appends `fd` to the table and returns its index. A full table, or one
    /// whose count is out of range, takes no more.
    pub fn append_fd(&mut self, fd: i32) -> (r: Result<usize, UblkError>)
        ensures
            match r {
                Ok(idx) => {
                    &&& 0 <= old(self).nr_fds < UBLK_MAX_FDS
                    &&& idx == old(self).nr_fds
                    &&& final(self).nr_fds == old(self).nr_fds + 1
                    &&& final(self).fds@ == old(self).fds@.update(idx as int, fd)
                    &&& final(self).data == old(self).data
                },
                Err(e) => {
                    &&& !(0 <= old(self).nr_fds < UBLK_MAX_FDS)
                    &&& e == UblkError::TooManyFiles
                    &&& *final(self) == *old(self)
                },
            },
    {
        if self.nr_fds < 0 || self.nr_fds >= 32 {
            return Err(UblkError::TooManyFiles);
        }
        let idx = self.nr_fds as usize;
        self.fds[idx] = fd;
        self.nr_fds = self.nr_fds + 1;
        Ok(idx)
    }
}

impl Default for UblkTgt {
    fn default() -> (tgt: UblkTgt)
        ensures
            tgt.tgt_type@ == Seq::<char>::empty(),
            tgt.dev_size == 0,
            tgt.params == ublk_params::spec_zeroed(),
    {
        UblkTgt { tgt_type: String::new(), dev_size: 0, params: ublk_params::default() }
    }
}

/// The descriptor of a device before its backend has seen it: the target has
/// its type and nothing else, and the file table holds the character device
/// of the driver and nothing else.
pub open spec fn spec_fresh_dev(
    info: ublksrv_ctrl_dev_info,
    tgt_type: Seq<char>,
    cdev_fd: i32,
    dev: UblkDev,
) -> bool {
    &&& dev.dev_info == info
    &&& dev.tgt.tgt_type@ == tgt_type
    &&& dev.tgt.dev_size == 0
    &&& dev.tgt.params == ublk_params::spec_zeroed()
    &&& dev.tdata.nr_fds == 1
    &&& dev.tdata.fds@ == Seq::new(
        32,
        |i: int|
            if i == 0 {
                cdev_fd
            } else {
                0i32
            },
    )
    &&& dev.tdata.data is None
}

/// Whether the descriptor `dev` is in order for the device of `info`: it has
/// the identity and geometry of `info`, the count of entries in use is
/// within the file table, and entry 0 is the character device `cdev_fd`.
pub open spec fn spec_dev_kept(dev: UblkDev, info: ublksrv_ctrl_dev_info, cdev_fd: i32) -> bool {
    dev.dev_info == info && 1 <= dev.tdata.nr_fds <= 32 && dev.tdata.fds@[0] == cdev_fd
}

/// The backend of a device.
pub trait UblkTgtOps {
    /// Sets the target up: fills in the type, the size and the parameters of
    /// the target, appends the files of the backend to the file table, and
    /// returns the first form of the recovery document, whose member
    /// `target_data` is the backend's own. The identity and geometry of the
    /// device and entry 0 of the file table are not for the backend to change.
    fn init_tgt(&self, dev: &mut UblkDev) -> (r: Result<serde_json::Value, UblkError>)
        requires
            old(dev).tdata.nr_fds == 1,
            old(dev).tdata.data is None,
            old(dev).tgt.dev_size == 0,
            old(dev).tgt.params == ublk_params::spec_zeroed(),
    ;

    /// Releases what the target holds.
    fn deinit_tgt(&self, dev: &mut UblkDev);
}

impl UblkDev {
    /// The descriptor of the device of `info`, with a target of type
    /// `tgt_type` and the character device `cdev_fd` as entry 0 of its file table.
    pub fn prepare(info: ublksrv_ctrl_dev_info, tgt_type: &String, cdev_fd: i32) -> (dev: UblkDev)
        ensures
            spec_fresh_dev(info, tgt_type@, cdev_fd, dev),
            spec_dev_kept(dev, info, cdev_fd),
    {
        let tgt = UblkTgt {
            tgt_type: tgt_type.clone(),
            dev_size: 0,
            params: ublk_params::default(),
        };
        let mut data = UblkTgtData { fds: [0i32; 32], nr_fds: 0, data: None };
        data.fds[0] = cdev_fd;
        data.nr_fds = 1;
        let dev = UblkDev { dev_info: info, tgt, tdata: data };
        assert(dev.tdata.fds@ =~= Seq::new(
            32,
            |i: int|
                if i == 0 {
                    cdev_fd
                } else {
                    0i32
                },
        ));
        dev
    }

    /// Takes what the backend's `init_tgt` left and returned. Where it
    /// succeeded and left the descriptor in order, the document goes to the
    /// channel and the descriptor is handed on. Where it failed, its error is
    /// handed on; where it left the descriptor out of order, the error is
    /// `UblkError::BadDescriptor`; in both cases the channel stays as it was.
    pub fn finish_init(
        ctrl: &mut UblkCtrl,
        dev: UblkDev,
        cdev_fd: i32,
        inited: Result<serde_json::Value, UblkError>,
    ) -> (r: Result<UblkDev, UblkError>)
        ensures
            match inited {
                Ok(json) => if spec_dev_kept(dev, old(ctrl).dev_info, cdev_fd) {
                    r == Ok::<UblkDev, UblkError>(dev) && final(ctrl).json == json
                } else {
                    r == Err::<UblkDev, UblkError>(UblkError::BadDescriptor) && final(ctrl).json
                        == old(ctrl).json
                },
                Err(e) => r == Err::<UblkDev, UblkError>(e) && final(ctrl).json == old(ctrl).json,
            },
            final(ctrl).dev_info == old(ctrl).dev_info,
            final(ctrl).for_add == old(ctrl).for_add,
            final(ctrl).info_addr == old(ctrl).info_addr,
    {
        match inited {
            Ok(json) => {
                if dev.dev_info != ctrl.dev_info || dev.tdata.nr_fds < 1 || dev.tdata.nr_fds > 32
                    || dev.tdata.fds[0] != cdev_fd {
                    Err(UblkError::BadDescriptor)
                } else {
                    ctrl.json = json;
                    Ok(dev)
                }
            },
            Err(e) => Err(e),
        }
    }

    /// Makes the descriptor of the device of `ctrl`, whose character device
    /// is open as `cdev_fd`, and lets the backend `ops` set its target of
    /// type `tgt_type` up. The document that the backend returns goes to the
    /// channel. A failure of the backend fails the whole; so does a
    /// descriptor that the backend left out of order.
    pub fn new<T: UblkTgtOps>(
        ops: &T,
        ctrl: &mut UblkCtrl,
        tgt_type: &String,
        cdev_fd: i32,
    ) -> (r: Result<UblkDev, UblkError>)
        ensures
            match r {
                Ok(dev) => spec_dev_kept(dev, old(ctrl).dev_info, cdev_fd),
                Err(_) => final(ctrl).json == old(ctrl).json,
            },
            final(ctrl).dev_info == old(ctrl).dev_info,
            final(ctrl).for_add == old(ctrl).for_add,
            final(ctrl).info_addr == old(ctrl).info_addr,
    {
        let mut dev = UblkDev::prepare(ctrl.dev_info, tgt_type, cdev_fd);
        let inited = ops.init_tgt(&mut dev);
        UblkDev::finish_init(ctrl, dev, cdev_fd, inited)
    }

    /// Lets the backend `ops` release what the target holds, and returns the
    /// id of the device, whose recovery document is to be removed.
    pub fn deinit_cdev<T: UblkTgtOps>(&mut self, ops: &T) -> (id: u32)
        ensures
            id == old(self).dev_info.dev_id,
    {
        let id = self.dev_info.dev_id;
        ops.deinit_tgt(self);
        id
    }
}

} // verus!
