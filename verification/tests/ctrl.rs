use libublk::ctrl::CTRL_CMD_HAS_BUF;
use libublk::ctrl::CTRL_CMD_HAS_DATA;
use libublk::sys::ublk_params;
use libublk::sys::ublksrv_ctrl_cmd;
use libublk::sys::ublksrv_ctrl_dev_info;
use libublk::sys::UBLK_CMD_ADD_DEV;
use libublk::sys::UBLK_CMD_DEL_DEV;
use libublk::sys::UBLK_CMD_GET_DEV_INFO;
use libublk::sys::UBLK_CMD_GET_PARAMS;
use libublk::sys::UBLK_CMD_GET_QUEUE_AFFINITY;
use libublk::sys::UBLK_CMD_SET_PARAMS;
use libublk::sys::UBLK_CMD_START_DEV;
use libublk::sys::UBLK_CMD_STOP_DEV;
use libublk::ublk_ctrl_cmd;
use libublk::ublk_ctrl_prep_cmd;
use libublk::UblkCtrl;
use libublk::UblkCtrlCmdData;
use libublk::UblkError;
use libublk::UblkQueueAffinity;

#[test]
fn new_channel_that_adds_its_device() {
    let (ctrl, first) = UblkCtrl::new(-1, 2, 64, true, 4321, 0xdead_0000);
    let mut expected = ublksrv_ctrl_dev_info::default();
    expected.nr_hw_queues = 2;
    expected.queue_depth = 64;
    expected.max_io_buf_bytes = 512 << 10;
    expected.dev_id = u32::MAX;
    expected.ublksrv_pid = 4321;
    assert_eq!(ctrl.dev_info, expected);
    assert!(ctrl.for_add);
    assert_eq!(ctrl.info_addr, 0xdead_0000);
    assert_eq!(ctrl.json, serde_json::Value::Object(serde_json::Map::new()));
    assert_eq!(
        first,
        Some(UblkCtrlCmdData {
            cmd_op: UBLK_CMD_ADD_DEV,
            flags: CTRL_CMD_HAS_BUF,
            data: [0, 0],
            addr: 0xdead_0000,
            len: 64,
        })
    );
    assert_eq!(
        ctrl.drop_cmd(),
        Some(UblkCtrlCmdData { cmd_op: UBLK_CMD_DEL_DEV, flags: 0, data: [0, 0], addr: 0, len: 0 })
    );
}

#[test]
fn new_channel_that_only_queries() {
    let (ctrl, first) = UblkCtrl::new(3, 1, 128, false, 1, 0x10);
    assert_eq!(ctrl.dev_info.dev_id, 3);
    assert_eq!(ctrl.dev_info.nr_hw_queues, 1);
    assert_eq!(ctrl.dev_info.queue_depth, 128);
    assert!(!ctrl.for_add);
    assert_eq!(first, None);
    assert_eq!(ctrl.drop_cmd(), None);
}

#[test]
fn new_channel_cuts_counts_to_16_bits() {
    let (ctrl, _) = UblkCtrl::new(0, 0x1_0002, 0x2_0040, false, 1, 0);
    assert_eq!(ctrl.dev_info.nr_hw_queues, 2);
    assert_eq!(ctrl.dev_info.queue_depth, 0x40);
}

#[test]
fn commands_of_the_channel() {
    let (ctrl, _) = UblkCtrl::new(5, 1, 4, false, 1, 0xabc0);
    assert_eq!(
        ctrl.del(),
        UblkCtrlCmdData { cmd_op: UBLK_CMD_DEL_DEV, flags: 0, data: [0, 0], addr: 0, len: 0 }
    );
    assert_eq!(
        ctrl.stop(),
        UblkCtrlCmdData { cmd_op: UBLK_CMD_STOP_DEV, flags: 0, data: [0, 0], addr: 0, len: 0 }
    );
    assert_eq!(
        ctrl.get_info(),
        UblkCtrlCmdData {
            cmd_op: UBLK_CMD_GET_DEV_INFO,
            flags: CTRL_CMD_HAS_BUF,
            data: [0, 0],
            addr: 0xabc0,
            len: 64,
        }
    );
    assert_eq!(
        ctrl.start(777),
        UblkCtrlCmdData {
            cmd_op: UBLK_CMD_START_DEV,
            flags: CTRL_CMD_HAS_DATA,
            data: [777, 0],
            addr: 0,
            len: 0,
        }
    );
    assert_eq!(ctrl.start(-1).data, [u64::MAX, 0]);
}

#[test]
fn params_commands_fill_the_length() {
    let (ctrl, _) = UblkCtrl::new(5, 1, 4, false, 1, 0xabc0);
    let mut params = ublk_params::default();
    params.types = 1;
    params.basic.dev_sectors = 2048;
    let data = ctrl.get_params(&mut params, 0x5000);
    assert_eq!(params.len, 80);
    assert_eq!(params.types, 1);
    assert_eq!(params.basic.dev_sectors, 2048);
    assert_eq!(
        data,
        UblkCtrlCmdData {
            cmd_op: UBLK_CMD_GET_PARAMS,
            flags: CTRL_CMD_HAS_BUF,
            data: [0, 0],
            addr: 0x5000,
            len: 80,
        }
    );

    let mut given = ublk_params::default();
    given.len = 3;
    given.basic.logical_bs_shift = 9;
    let (p, data) = ctrl.set_params(&given, 0x6000);
    assert_eq!(given.len, 3);
    assert_eq!(p.len, 80);
    assert_eq!(p.basic.logical_bs_shift, 9);
    let mut expected = given;
    expected.len = 80;
    assert_eq!(p, expected);
    assert_eq!(
        data,
        UblkCtrlCmdData {
            cmd_op: UBLK_CMD_SET_PARAMS,
            flags: CTRL_CMD_HAS_BUF,
            data: [0, 0],
            addr: 0x6000,
            len: 80,
        }
    );
}

#[test]
fn affinity_command_names_queue_and_bitmap() {
    let (ctrl, _) = UblkCtrl::new(5, 1, 4, false, 1, 0xabc0);
    let mut bm = UblkQueueAffinity::new();
    let data = ctrl.get_queue_affinity(3, &mut bm);
    assert_eq!(data.cmd_op, UBLK_CMD_GET_QUEUE_AFFINITY);
    assert_eq!(data.flags, CTRL_CMD_HAS_BUF | CTRL_CMD_HAS_DATA);
    assert_eq!(data.data, [3, 0]);
    assert_eq!(data.len, 128);
    assert_eq!(data.addr, bm.addr());
    assert_ne!(data.addr, 0);
    assert_eq!(bm.to_bits_vec(), Vec::<usize>::new());
}

#[test]
fn prep_cmd_takes_the_fields_that_the_flags_name() {
    let data = UblkCtrlCmdData { cmd_op: 9, flags: 0, data: [11, 12], addr: 0x1000, len: 64 };
    assert_eq!(
        ublk_ctrl_prep_cmd(7, &data),
        ublksrv_ctrl_cmd { dev_id: 7, queue_id: u16::MAX, len: 0, addr: 0, data: 0 }
    );
    let data = UblkCtrlCmdData { flags: CTRL_CMD_HAS_BUF, ..data };
    assert_eq!(
        ublk_ctrl_prep_cmd(7, &data),
        ublksrv_ctrl_cmd { dev_id: 7, queue_id: u16::MAX, len: 64, addr: 0x1000, data: 0 }
    );
    let data = UblkCtrlCmdData { flags: CTRL_CMD_HAS_DATA, ..data };
    assert_eq!(
        ublk_ctrl_prep_cmd(7, &data),
        ublksrv_ctrl_cmd { dev_id: 7, queue_id: u16::MAX, len: 0, addr: 0, data: 11 }
    );
    let data = UblkCtrlCmdData { flags: CTRL_CMD_HAS_DATA | CTRL_CMD_HAS_BUF, ..data };
    assert_eq!(
        ublk_ctrl_prep_cmd(u32::MAX, &data),
        ublksrv_ctrl_cmd { dev_id: u32::MAX, queue_id: u16::MAX, len: 64, addr: 0x1000, data: 11 }
    );
    // other flag bits do not count
    let data = UblkCtrlCmdData { flags: 0xffff_fffc, ..data };
    assert_eq!(
        ublk_ctrl_prep_cmd(7, &data),
        ublksrv_ctrl_cmd { dev_id: 7, queue_id: u16::MAX, len: 0, addr: 0, data: 0 }
    );
    // the length is cut to 16 bits
    let data = UblkCtrlCmdData { flags: CTRL_CMD_HAS_BUF, len: 0x1_0080, ..data };
    assert_eq!(ublk_ctrl_prep_cmd(7, &data).len, 0x80);
}

#[test]
fn ctrl_cmd_result() {
    assert_eq!(ublk_ctrl_cmd(0), Ok(0));
    assert_eq!(ublk_ctrl_cmd(-19), Err(UblkError::CtrlCmd(-19)));
    assert_eq!(ublk_ctrl_cmd(-2), Err(UblkError::CtrlCmd(-2)));
    assert_eq!(ublk_ctrl_cmd(1), Err(UblkError::CtrlCmd(1)));
    assert_eq!(ublk_ctrl_cmd(i32::MIN), Err(UblkError::CtrlCmd(i32::MIN)));
}
