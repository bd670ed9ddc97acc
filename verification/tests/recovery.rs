use libublk::recovery::dev_info_json;
use libublk::recovery::params_json;
use libublk::recovery::queue_json;
use libublk::recovery::run_json;
use libublk::recovery::target_json;
use libublk::sys::ublk_params;
use libublk::ublk_run_path;
use libublk::util::u32_to_decimal_pad4;
use libublk::util::u64_to_decimal;
use libublk::UblkCtrl;
use libublk::UblkDev;
use libublk::UblkQueueAffinity;
use libublk::UblkTgt;
use serde_json::Value;

fn obj(members: Vec<(&str, Value)>) -> Value {
    let mut m = serde_json::Map::new();
    for (k, v) in members {
        m.insert(k.to_string(), v);
    }
    Value::Object(m)
}

fn sample_ctrl() -> UblkCtrl {
    let (mut ctrl, _) = UblkCtrl::new(7, 2, 64, true, 4321, 0);
    ctrl.dev_info.state = 1;
    ctrl.dev_info.flags = 0x42;
    ctrl.dev_info.ublksrv_flags = u64::MAX;
    ctrl.dev_info.owner_uid = 1000;
    ctrl.dev_info.owner_gid = 100;
    ctrl
}

fn sample_dev_info_json() -> Value {
    obj(vec![
        ("nr_hw_queues", Value::from(2u64)),
        ("queue_depth", Value::from(64u64)),
        ("state", Value::from(1u64)),
        ("pad0", Value::from(0u64)),
        ("max_io_buf_bytes", Value::from(524288u64)),
        ("dev_id", Value::from(7u64)),
        ("ublksrv_pid", Value::from(4321i64)),
        ("pad1", Value::from(0u64)),
        ("flags", Value::from(0x42u64)),
        ("ublksrv_flags", Value::from(u64::MAX)),
        ("owner_uid", Value::from(1000u64)),
        ("owner_gid", Value::from(100u64)),
        ("reserved1", Value::from(0u64)),
        ("reserved2", Value::from(0u64)),
    ])
}

fn sample_params() -> ublk_params {
    let mut p = ublk_params::default();
    p.len = 80;
    p.types = 3;
    p.basic.attrs = 1;
    p.basic.logical_bs_shift = 9;
    p.basic.physical_bs_shift = 12;
    p.basic.io_opt_shift = 12;
    p.basic.io_min_shift = 9;
    p.basic.max_sectors = 1024;
    p.basic.chunk_sectors = 8;
    p.basic.dev_sectors = 2048;
    p.basic.virt_boundary_mask = 4095;
    p.discard.discard_alignment = 1;
    p.discard.discard_granularity = 2;
    p.discard.max_discard_sectors = 3;
    p.discard.max_write_zeroes_sectors = 4;
    p.discard.max_discard_segments = 5;
    p.discard.reserved0 = 6;
    p.devt.char_major = 240;
    p.devt.char_minor = 1;
    p.devt.disk_major = 259;
    p.devt.disk_minor = 2;
    p
}

fn sample_params_json() -> Value {
    obj(vec![
        ("len", Value::from(80u64)),
        ("types", Value::from(3u64)),
        (
            "basic",
            obj(vec![
                ("attrs", Value::from(1u64)),
                ("logical_bs_shift", Value::from(9u64)),
                ("physical_bs_shift", Value::from(12u64)),
                ("io_opt_shift", Value::from(12u64)),
                ("io_min_shift", Value::from(9u64)),
                ("max_sectors", Value::from(1024u64)),
                ("chunk_sectors", Value::from(8u64)),
                ("dev_sectors", Value::from(2048u64)),
                ("virt_boundary_mask", Value::from(4095u64)),
            ]),
        ),
        (
            "discard",
            obj(vec![
                ("discard_alignment", Value::from(1u64)),
                ("discard_granularity", Value::from(2u64)),
                ("max_discard_sectors", Value::from(3u64)),
                ("max_write_zeroes_sectors", Value::from(4u64)),
                ("max_discard_segments", Value::from(5u64)),
                ("reserved0", Value::from(6u64)),
            ]),
        ),
        (
            "devt",
            obj(vec![
                ("char_major", Value::from(240u64)),
                ("char_minor", Value::from(1u64)),
                ("disk_major", Value::from(259u64)),
                ("disk_minor", Value::from(2u64)),
            ]),
        ),
    ])
}

#[test]
fn decimal_digits() {
    assert_eq!(u64_to_decimal(0), "0");
    assert_eq!(u64_to_decimal(7), "7");
    assert_eq!(u64_to_decimal(10), "10");
    assert_eq!(u64_to_decimal(1234567890), "1234567890");
    assert_eq!(u64_to_decimal(u64::MAX), "18446744073709551615");
    for n in [0u64, 9, 10, 99, 100, 101, 999, 1000, 65535, 1 << 40] {
        assert_eq!(u64_to_decimal(n), format!("{}", n));
    }
}

#[test]
fn decimal_digits_padded_to_four() {
    assert_eq!(u32_to_decimal_pad4(0), "0000");
    assert_eq!(u32_to_decimal_pad4(7), "0007");
    assert_eq!(u32_to_decimal_pad4(42), "0042");
    assert_eq!(u32_to_decimal_pad4(999), "0999");
    assert_eq!(u32_to_decimal_pad4(1000), "1000");
    assert_eq!(u32_to_decimal_pad4(12345), "12345");
    assert_eq!(u32_to_decimal_pad4(u32::MAX), "4294967295");
    for n in [0u32, 9, 10, 99, 100, 999, 1000, 9999, 10000, u32::MAX] {
        assert_eq!(u32_to_decimal_pad4(n), format!("{:04}", n));
    }
}

#[test]
fn run_path_is_keyed_by_padded_id() {
    assert_eq!(ublk_run_path("/tmp", 0), "/tmp/ublk/0000.json");
    assert_eq!(ublk_run_path("/tmp", 7), "/tmp/ublk/0007.json");
    assert_eq!(ublk_run_path("/var/tmp", 12345), "/var/tmp/ublk/12345.json");
    assert_eq!(ublk_run_path("", 1), "/ublk/0001.json");
    assert_eq!(ublk_run_path("/tmp", u32::MAX), "/tmp/ublk/4294967295.json");
}

#[test]
fn dev_info_document() {
    assert_eq!(dev_info_json(&sample_ctrl().dev_info), sample_dev_info_json());
    let (mut ctrl, _) = UblkCtrl::new(-1, 1, 1, true, -5, 0);
    ctrl.dev_info.ublksrv_pid = -5;
    let doc = dev_info_json(&ctrl.dev_info);
    assert_eq!(doc["ublksrv_pid"], Value::from(-5i64));
    assert_eq!(doc["dev_id"], Value::from(u32::MAX as u64));
}

#[test]
fn params_document() {
    assert_eq!(params_json(&sample_params()), sample_params_json());
}

#[test]
fn target_document() {
    let tgt = UblkTgt { tgt_type: "loop".to_string(), dev_size: 1 << 20, params: sample_params() };
    assert_eq!(
        target_json(&tgt),
        obj(vec![
            ("tgt_type", Value::from("loop")),
            ("dev_size", Value::from(1048576u64)),
            ("params", sample_params_json()),
        ])
    );
}

#[test]
fn queue_document() {
    let a = UblkQueueAffinity::new().with_cpu(3).with_cpu(0).with_cpu(1023).with_cpu(3);
    assert_eq!(
        queue_json(2, &a, 4242),
        obj(vec![
            ("qid", Value::from(2u64)),
            ("tid", Value::from(4242i64)),
            ("affinity", Value::from(vec![Value::from(0u64), Value::from(3u64), Value::from(1023u64)])),
        ])
    );
    assert_eq!(
        queue_json(0, &UblkQueueAffinity::new(), -1),
        obj(vec![
            ("qid", Value::from(0u64)),
            ("tid", Value::from(-1i64)),
            ("affinity", Value::Array(Vec::new())),
        ])
    );
}

#[test]
fn affinity_lists_cpus_by_rising_number() {
    let a = UblkQueueAffinity::new();
    assert_eq!(a.buf_len(), 128);
    assert_eq!(a.to_bits_vec(), Vec::<usize>::new());
    let a = a.with_cpu(130).with_cpu(5).with_cpu(127).with_cpu(128).with_cpu(0);
    assert_eq!(a.to_bits_vec(), vec![0, 5, 127, 128, 130]);
    // a number out of range adds nothing
    let a = a.with_cpu(1024).with_cpu(usize::MAX);
    assert_eq!(a.to_bits_vec(), vec![0, 5, 127, 128, 130]);
    let a = a.with_cpu(1023);
    assert_eq!(a.to_bits_vec(), vec![0, 5, 127, 128, 130, 1023]);
    assert_eq!(a.buf_len(), 128);
    assert_ne!(a.addr(), 0);
}

#[test]
fn recovery_document_has_the_four_members() {
    let ctrl = sample_ctrl();
    let mut dev = UblkDev::prepare(ctrl.dev_info, &"loop".to_string(), 3);
    dev.tgt.dev_size = 1 << 20;
    dev.tgt.params = sample_params();
    let own = obj(vec![("back_file_path", Value::from("/tmp/disk.img")), ("direct_io", Value::from(1u64))]);
    let qdata = vec![
        (UblkQueueAffinity::new().with_cpu(0).with_cpu(1), 100),
        (UblkQueueAffinity::new().with_cpu(2), 101),
    ];
    let doc = run_json(&dev, own.clone(), &qdata);
    let expected = obj(vec![
        ("dev_info", sample_dev_info_json()),
        (
            "target",
            obj(vec![
                ("tgt_type", Value::from("loop")),
                ("dev_size", Value::from(1048576u64)),
                ("params", sample_params_json()),
            ]),
        ),
        ("target_data", own),
        (
            "queues",
            obj(vec![
                (
                    "0",
                    obj(vec![
                        ("qid", Value::from(0u64)),
                        ("tid", Value::from(100i64)),
                        ("affinity", Value::from(vec![Value::from(0u64), Value::from(1u64)])),
                    ]),
                ),
                (
                    "1",
                    obj(vec![
                        ("qid", Value::from(1u64)),
                        ("tid", Value::from(101i64)),
                        ("affinity", Value::from(vec![Value::from(2u64)])),
                    ]),
                ),
            ]),
        ),
    ]);
    assert_eq!(doc, expected);
}

#[test]
fn build_json_keeps_the_backends_member() {
    let mut ctrl = sample_ctrl();
    let dev = UblkDev::prepare(ctrl.dev_info, &"null".to_string(), 3);
    ctrl.json = obj(vec![
        ("target_data", obj(vec![("k", Value::from("v"))])),
        ("other", Value::from(1u64)),
    ]);
    ctrl.build_json(&dev, vec![(UblkQueueAffinity::new().with_cpu(9), 55)]);
    assert_eq!(ctrl.json["target_data"], obj(vec![("k", Value::from("v"))]));
    assert_eq!(ctrl.json["other"], Value::Null);
    assert_eq!(ctrl.json["dev_info"], sample_dev_info_json());
    assert_eq!(ctrl.json["target"]["tgt_type"], Value::from("null"));
    assert_eq!(ctrl.json["target"]["dev_size"], Value::from(0u64));
    assert_eq!(ctrl.json["queues"]["0"]["qid"], Value::from(0u64));
    assert_eq!(ctrl.json["queues"]["0"]["tid"], Value::from(55i64));
    assert_eq!(ctrl.json["queues"]["0"]["affinity"], Value::from(vec![Value::from(9u64)]));
    assert_eq!(ctrl.json.as_object().unwrap().len(), 4);
    assert_eq!(ctrl.json["queues"].as_object().unwrap().len(), 1);
    // a second build keeps it again
    ctrl.build_json(&dev, Vec::new());
    assert_eq!(ctrl.json["target_data"], obj(vec![("k", Value::from("v"))]));
    assert_eq!(ctrl.json["queues"], obj(Vec::new()));
}

#[test]
fn build_json_without_backend_member_gives_null() {
    let mut ctrl = sample_ctrl();
    let dev = UblkDev::prepare(ctrl.dev_info, &"null".to_string(), 3);
    ctrl.build_json(&dev, Vec::new());
    assert_eq!(ctrl.json["target_data"], Value::Null);
    assert!(ctrl.json.as_object().unwrap().contains_key("target_data"));
    // a document that is no object has no member either
    ctrl.json = Value::from(vec![Value::from(1u64)]);
    ctrl.build_json(&dev, Vec::new());
    assert_eq!(ctrl.json["target_data"], Value::Null);
    ctrl.json = Value::from("target_data");
    ctrl.build_json(&dev, Vec::new());
    assert_eq!(ctrl.json["target_data"], Value::Null);
}

#[test]
fn recovery_document_of_many_queues_is_keyed_in_decimal() {
    let ctrl = sample_ctrl();
    let dev = UblkDev::prepare(ctrl.dev_info, &"null".to_string(), 3);
    let mut qdata = Vec::new();
    for i in 0..12 {
        qdata.push((UblkQueueAffinity::new().with_cpu(i), 1000 + i as i32));
    }
    let doc = run_json(&dev, Value::Null, &qdata);
    let queues = doc["queues"].as_object().unwrap();
    assert_eq!(queues.len(), 12);
    for i in 0..12u64 {
        let q = &queues[&format!("{}", i)];
        assert_eq!(q["qid"], Value::from(i));
        assert_eq!(q["tid"], Value::from(1000 + i as i64));
        assert_eq!(q["affinity"], Value::from(vec![Value::from(i)]));
    }
}

#[test]
fn flush_json_gives_path_and_compact_text() {
    let mut ctrl = sample_ctrl();
    let (path, text) = ctrl.flush_json("/tmp");
    assert_eq!(path, "/tmp/ublk/0007.json");
    assert_eq!(text, "{}");
    ctrl.json = obj(vec![
        ("b", Value::from(vec![Value::from(1u64), Value::from(-2i64)])),
        ("a", Value::from("x\"y")),
        ("c", Value::Null),
    ]);
    let (path, text) = ctrl.flush_json("/var/tmp");
    assert_eq!(path, "/var/tmp/ublk/0007.json");
    assert_eq!(text, "{\"a\":\"x\\\"y\",\"b\":[1,-2],\"c\":null}");
    let dev = UblkDev::prepare(ctrl.dev_info, &"loop".to_string(), 3);
    ctrl.build_json(&dev, vec![(UblkQueueAffinity::new().with_cpu(1), 9)]);
    let (_, text) = ctrl.flush_json("/tmp");
    let back: Value = serde_json::from_str(&text).unwrap();
    assert_eq!(back, ctrl.json);
    assert_eq!(back["queues"]["0"]["affinity"], Value::from(vec![Value::from(1u64)]));
}
