//! The recovery document of a device: a JSON object with the members
//! `dev_info` (identity and geometry), `target` (type, size and parameters),
//! `target_data` (the backend's own) and `queues` (for each queue, under its
//! index in decimal, its index, the thread that serves it and its affinity).
//! It is kept in a file of a directory `ublk` below the directory for
//! temporary files, named by the device id in at least four decimal digits.
use vstd::prelude::*;
use vstd::string::StringExecFns;
use crate::affinity::affinity_cpus;
use crate::affinity::UblkQueueAffinity;
use crate::dev::UblkDev;
use crate::dev::UblkTgt;
use crate::json::json_from_i64;
use crate::json::json_from_map;
use crate::json::json_from_str;
use crate::json::json_from_u64;
use crate::json::json_from_vec;
use crate::json::json_map_insert;
use crate::json::json_map_model;
use crate::json::json_map_new;
use crate::json::json_model;
use crate::json::spec_json_models;
use crate::json::spec_no_members;
use crate::json::JsonModel;
use crate::sys::ublk_param_basic;
use crate::sys::ublk_param_devt;
use crate::sys::ublk_param_discard;
use crate::sys::ublk_params;
use crate::sys::ublksrv_ctrl_dev_info;
use crate::util::spec_decimal;
use crate::util::spec_decimal_pad4;
use crate::util::u32_to_decimal_pad4;
use crate::util::u64_to_decimal;

verus! {

/// The path of the recovery document of device `dev_id`, below the directory
/// `tmp_dir` for temporary files.
pub open spec fn spec_run_path(tmp_dir: Seq<char>, dev_id: u32) -> Seq<char> {
    tmp_dir + "/ublk/"@ + spec_decimal_pad4(dev_id as nat) + ".json"@
}

/// The path of the recovery document of device `dev_id`, below the directory
/// `tmp_dir` for temporary files.
pub fn ublk_run_path(tmp_dir: &str, dev_id: u32) -> (path: String)
    ensures
        path@ == spec_run_path(tmp_dir@, dev_id),
{
    let mut path = String::from_str(tmp_dir);
    path.append("/ublk/");
    let id = u32_to_decimal_pad4(dev_id);
    path.append(id.as_str());
    path.append(".json");
    path
}

/// The document of a device-info record: an object with one number for each field.
pub open spec fn spec_dev_info_json(info: ublksrv_ctrl_dev_info) -> JsonModel {
    JsonModel::Object(
        spec_no_members().insert("nr_hw_queues"@, JsonModel::Int(info.nr_hw_queues as int)).insert(
            "queue_depth"@,
            JsonModel::Int(info.queue_depth as int),
        ).insert("state"@, JsonModel::Int(info.state as int)).insert(
            "pad0"@,
            JsonModel::Int(info.pad0 as int),
        ).insert("max_io_buf_bytes"@, JsonModel::Int(info.max_io_buf_bytes as int)).insert(
            "dev_id"@,
            JsonModel::Int(info.dev_id as int),
        ).insert("ublksrv_pid"@, JsonModel::Int(info.ublksrv_pid as int)).insert(
            "pad1"@,
            JsonModel::Int(info.pad1 as int),
        ).insert("flags"@, JsonModel::Int(info.flags as int)).insert(
            "ublksrv_flags"@,
            JsonModel::Int(info.ublksrv_flags as int),
        ).insert("owner_uid"@, JsonModel::Int(info.owner_uid as int)).insert(
            "owner_gid"@,
            JsonModel::Int(info.owner_gid as int),
        ).insert("reserved1"@, JsonModel::Int(info.reserved1 as int)).insert(
            "reserved2"@,
            JsonModel::Int(info.reserved2 as int),
        ),
    )
}

/// The document of a device-info record.
pub fn dev_info_json(info: &ublksrv_ctrl_dev_info) -> (v: serde_json::Value)
    ensures
        json_model(v) == spec_dev_info_json(*info),
{
    let mut m = json_map_new();
    json_map_insert(&mut m, "nr_hw_queues", json_from_u64(info.nr_hw_queues as u64));
    json_map_insert(&mut m, "queue_depth", json_from_u64(info.queue_depth as u64));
    json_map_insert(&mut m, "state", json_from_u64(info.state as u64));
    json_map_insert(&mut m, "pad0", json_from_u64(info.pad0 as u64));
    json_map_insert(&mut m, "max_io_buf_bytes", json_from_u64(info.max_io_buf_bytes as u64));
    json_map_insert(&mut m, "dev_id", json_from_u64(info.dev_id as u64));
    json_map_insert(&mut m, "ublksrv_pid", json_from_i64(info.ublksrv_pid as i64));
    json_map_insert(&mut m, "pad1", json_from_u64(info.pad1 as u64));
    json_map_insert(&mut m, "flags", json_from_u64(info.flags));
    json_map_insert(&mut m, "ublksrv_flags", json_from_u64(info.ublksrv_flags));
    json_map_insert(&mut m, "owner_uid", json_from_u64(info.owner_uid as u64));
    json_map_insert(&mut m, "owner_gid", json_from_u64(info.owner_gid as u64));
    json_map_insert(&mut m, "reserved1", json_from_u64(info.reserved1));
    json_map_insert(&mut m, "reserved2", json_from_u64(info.reserved2));
    json_from_map(m)
}

/// The document of the basic parameters.
pub open spec fn spec_param_basic_json(p: ublk_param_basic) -> JsonModel {
    JsonModel::Object(
        spec_no_members().insert("attrs"@, JsonModel::Int(p.attrs as int)).insert(
            "logical_bs_shift"@,
            JsonModel::Int(p.logical_bs_shift as int),
        ).insert("physical_bs_shift"@, JsonModel::Int(p.physical_bs_shift as int)).insert(
            "io_opt_shift"@,
            JsonModel::Int(p.io_opt_shift as int),
        ).insert("io_min_shift"@, JsonModel::Int(p.io_min_shift as int)).insert(
            "max_sectors"@,
            JsonModel::Int(p.max_sectors as int),
        ).insert("chunk_sectors"@, JsonModel::Int(p.chunk_sectors as int)).insert(
            "dev_sectors"@,
            JsonModel::Int(p.dev_sectors as int),
        ).insert("virt_boundary_mask"@, JsonModel::Int(p.virt_boundary_mask as int)),
    )
}

/// The document of the discard parameters.
pub open spec fn spec_param_discard_json(p: ublk_param_discard) -> JsonModel {
    JsonModel::Object(
        spec_no_members().insert(
            "discard_alignment"@,
            JsonModel::Int(p.discard_alignment as int),
        ).insert("discard_granularity"@, JsonModel::Int(p.discard_granularity as int)).insert(
            "max_discard_sectors"@,
            JsonModel::Int(p.max_discard_sectors as int),
        ).insert(
            "max_write_zeroes_sectors"@,
            JsonModel::Int(p.max_write_zeroes_sectors as int),
        ).insert("max_discard_segments"@, JsonModel::Int(p.max_discard_segments as int)).insert(
            "reserved0"@,
            JsonModel::Int(p.reserved0 as int),
        ),
    )
}

/// The document of the device numbers.
pub open spec fn spec_param_devt_json(p: ublk_param_devt) -> JsonModel {
    JsonModel::Object(
        spec_no_members().insert("char_major"@, JsonModel::Int(p.char_major as int)).insert(
            "char_minor"@,
            JsonModel::Int(p.char_minor as int),
        ).insert("disk_major"@, JsonModel::Int(p.disk_major as int)).insert(
            "disk_minor"@,
            JsonModel::Int(p.disk_minor as int),
        ),
    )
}

/// The document of a parameter record.
pub open spec fn spec_params_json(p: ublk_params) -> JsonModel {
    JsonModel::Object(
        spec_no_members().insert("len"@, JsonModel::Int(p.len as int)).insert(
            "types"@,
            JsonModel::Int(p.types as int),
        ).insert("basic"@, spec_param_basic_json(p.basic)).insert(
            "discard"@,
            spec_param_discard_json(p.discard),
        ).insert("devt"@, spec_param_devt_json(p.devt)),
    )
}

/// The document of a target: its type, its size and its parameters.
pub open spec fn spec_target_json(tgt: UblkTgt) -> JsonModel {
    JsonModel::Object(
        spec_no_members().insert("tgt_type"@, JsonModel::Str(tgt.tgt_type@)).insert(
            "dev_size"@,
            JsonModel::Int(tgt.dev_size as int),
        ).insert("params"@, spec_params_json(tgt.params)),
    )
}

fn param_basic_json(p: &ublk_param_basic) -> (v: serde_json::Value)
    ensures
        json_model(v) == spec_param_basic_json(*p),
{
    let mut m = json_map_new();
    json_map_insert(&mut m, "attrs", json_from_u64(p.attrs as u64));
    json_map_insert(&mut m, "logical_bs_shift", json_from_u64(p.logical_bs_shift as u64));
    json_map_insert(&mut m, "physical_bs_shift", json_from_u64(p.physical_bs_shift as u64));
    json_map_insert(&mut m, "io_opt_shift", json_from_u64(p.io_opt_shift as u64));
    json_map_insert(&mut m, "io_min_shift", json_from_u64(p.io_min_shift as u64));
    json_map_insert(&mut m, "max_sectors", json_from_u64(p.max_sectors as u64));
    json_map_insert(&mut m, "chunk_sectors", json_from_u64(p.chunk_sectors as u64));
    json_map_insert(&mut m, "dev_sectors", json_from_u64(p.dev_sectors));
    json_map_insert(&mut m, "virt_boundary_mask", json_from_u64(p.virt_boundary_mask));
    json_from_map(m)
}

fn param_discard_json(p: &ublk_param_discard) -> (v: serde_json::Value)
    ensures
        json_model(v) == spec_param_discard_json(*p),
{
    let mut m = json_map_new();
    json_map_insert(&mut m, "discard_alignment", json_from_u64(p.discard_alignment as u64));
    json_map_insert(&mut m, "discard_granularity", json_from_u64(p.discard_granularity as u64));
    json_map_insert(&mut m, "max_discard_sectors", json_from_u64(p.max_discard_sectors as u64));
    json_map_insert(
        &mut m,
        "max_write_zeroes_sectors",
        json_from_u64(p.max_write_zeroes_sectors as u64),
    );
    json_map_insert(&mut m, "max_discard_segments", json_from_u64(p.max_discard_segments as u64));
    json_map_insert(&mut m, "reserved0", json_from_u64(p.reserved0 as u64));
    json_from_map(m)
}

fn param_devt_json(p: &ublk_param_devt) -> (v: serde_json::Value)
    ensures
        json_model(v) == spec_param_devt_json(*p),
{
    let mut m = json_map_new();
    json_map_insert(&mut m, "char_major", json_from_u64(p.char_major as u64));
    json_map_insert(&mut m, "char_minor", json_from_u64(p.char_minor as u64));
    json_map_insert(&mut m, "disk_major", json_from_u64(p.disk_major as u64));
    json_map_insert(&mut m, "disk_minor", json_from_u64(p.disk_minor as u64));
    json_from_map(m)
}

/// The document of a parameter record.
pub fn params_json(p: &ublk_params) -> (v: serde_json::Value)
    ensures
        json_model(v) == spec_params_json(*p),
{
    let mut m = json_map_new();
    json_map_insert(&mut m, "len", json_from_u64(p.len as u64));
    json_map_insert(&mut m, "types", json_from_u64(p.types as u64));
    json_map_insert(&mut m, "basic", param_basic_json(&p.basic));
    json_map_insert(&mut m, "discard", param_discard_json(&p.discard));
    json_map_insert(&mut m, "devt", param_devt_json(&p.devt));
    json_from_map(m)
}

/// The document of a target.
pub fn target_json(tgt: &UblkTgt) -> (v: serde_json::Value)
    ensures
        json_model(v) == spec_target_json(*tgt),
{
    let mut m = json_map_new();
    json_map_insert(&mut m, "tgt_type", json_from_str(tgt.tgt_type.as_str()));
    json_map_insert(&mut m, "dev_size", json_from_u64(tgt.dev_size));
    json_map_insert(&mut m, "params", params_json(&tgt.params));
    json_from_map(m)
}

/// The array of the numbers of `cpus`.
pub open spec fn spec_cpus_json(cpus: Seq<usize>) -> JsonModel {
    JsonModel::Array(Seq::new(cpus.len(), |i: int| JsonModel::Int(cpus[i] as int)))
}

/// The document of one queue: its index, the thread that serves it and the
/// CPUs of its affinity.
pub open spec fn spec_queue_json(qid: nat, cpus: Seq<usize>, tid: i32) -> JsonModel {
    JsonModel::Object(
        spec_no_members().insert("qid"@, JsonModel::Int(qid as int)).insert(
            "tid"@,
            JsonModel::Int(tid as int),
        ).insert("affinity"@, spec_cpus_json(cpus)),
    )
}

/// The members of the document of all queues: for each queue, under its
/// index in decimal, its document.
pub open spec fn spec_queues_members(qdata: Seq<(UblkQueueAffinity, i32)>) -> Map<
    Seq<char>,
    JsonModel,
>
    decreases qdata.len(),
{
    if qdata.len() == 0 {
        spec_no_members()
    } else {
        spec_queues_members(qdata.drop_last()).insert(
            spec_decimal((qdata.len() - 1) as nat),
            spec_queue_json(
                (qdata.len() - 1) as nat,
                affinity_cpus(qdata.last().0),
                qdata.last().1,
            ),
        )
    }
}

/// The recovery document of a device.
pub open spec fn spec_run_json(
    dev: UblkDev,
    target_data: JsonModel,
    qdata: Seq<(UblkQueueAffinity, i32)>,
) -> JsonModel {
    JsonModel::Object(
        spec_no_members().insert("dev_info"@, spec_dev_info_json(dev.dev_info)).insert(
            "target"@,
            spec_target_json(dev.tgt),
        ).insert("target_data"@, target_data).insert(
            "queues"@,
            JsonModel::Object(spec_queues_members(qdata)),
        ),
    )
}

/// The array of the numbers of `cpus`.
fn cpus_json(cpus: &Vec<usize>) -> (v: serde_json::Value)
    ensures
        json_model(v) == spec_cpus_json(cpus@),
{
    let mut items: Vec<serde_json::Value> = Vec::new();
    let mut i: usize = 0;
    while i < cpus.len()
        invariant
            i <= cpus@.len(),
            items@.len() == i,
            forall|j: int|
                0 <= j < i ==> json_model(#[trigger] items@[j]) == JsonModel::Int(
                    cpus@[j] as int,
                ),
        decreases cpus@.len() - i,
    {
        items.push(json_from_u64(cpus[i] as u64));
        i = i + 1;
    }
    assert(spec_json_models(items@) =~= Seq::new(
        cpus@.len(),
        |i: int| JsonModel::Int(cpus@[i] as int),
    ));
    json_from_vec(items)
}

/// The document of one queue.
pub fn queue_json(qid: usize, affinity: &UblkQueueAffinity, tid: i32) -> (v: serde_json::Value)
    ensures
        json_model(v) == spec_queue_json(qid as nat, affinity_cpus(*affinity), tid),
{
    let cpus = affinity.to_bits_vec();
    let mut m = json_map_new();
    json_map_insert(&mut m, "qid", json_from_u64(qid as u64));
    json_map_insert(&mut m, "tid", json_from_i64(tid as i64));
    json_map_insert(&mut m, "affinity", cpus_json(&cpus));
    json_from_map(m)
}

/// The recovery document of `dev`, with `target_data` for the backend's own
/// member and one entry of `qdata` for each queue: its affinity and the
/// thread that serves it.
pub fn run_json(
    dev: &UblkDev,
    target_data: serde_json::Value,
    qdata: &Vec<(UblkQueueAffinity, i32)>,
) -> (v: serde_json::Value)
    ensures
        json_model(v) == spec_run_json(*dev, json_model(target_data), qdata@),
{
    let mut map = json_map_new();
    let mut qid: usize = 0;
    while qid < qdata.len()
        invariant
            qid <= qdata@.len(),
            json_map_model(map) == spec_queues_members(qdata@.take(qid as int)),
        decreases qdata@.len() - qid,
    {
        proof {
            assert(qdata@.take(qid as int + 1).drop_last() =~= qdata@.take(qid as int));
            assert(qdata@.take(qid as int + 1).last() == qdata@[qid as int]);
        }
        let key = u64_to_decimal(qid as u64);
        let entry = queue_json(qid, &qdata[qid].0, qdata[qid].1);
        json_map_insert(&mut map, key.as_str(), entry);
        qid = qid + 1;
    }
    assert(qdata@.take(qid as int) =~= qdata@);
    let mut json = json_map_new();
    json_map_insert(&mut json, "dev_info", dev_info_json(&dev.dev_info));
    json_map_insert(&mut json, "target", target_json(&dev.tgt));
    json_map_insert(&mut json, "target_data", target_data);
    json_map_insert(&mut json, "queues", json_from_map(map));
    json_from_map(json)
}

} // verus!
