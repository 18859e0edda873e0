use mymodbus::history::DataSample;
use mymodbus::persistence::{
    decode_sample, decode_samples, encode_sample, file_header, is_persistence_file, needs_rotation,
    persistence_file_name, samples_since, PersistenceError,
};
use mymodbus::poller::{next_minute_after, next_minute_from, seconds_until};
use mymodbus::registers::{get_register, plan_for_id, read_plan, register_db, PlanError, ReadPlan, Scale};

fn s(ts: u64) -> DataSample {
    DataSample { ts, production_bits: 0.5f64.to_bits(), consumption_bits: 1, batt_soc_bits: u64::MAX }
}

#[test]
fn records_round_trip() {
    let bytes = encode_sample(s(0x0102030405060708));
    assert_eq!(bytes.len(), 32);
    assert_eq!(&bytes[..8], &[8, 7, 6, 5, 4, 3, 2, 1]);
    assert_eq!(&bytes[8..16], &0.5f64.to_le_bytes());
    assert_eq!(decode_sample(&bytes), s(0x0102030405060708));
}

#[test]
fn files_round_trip_and_ignore_a_partial_record() {
    let mut file = file_header();
    assert_eq!(file, b"MYMODB01".to_vec());
    file.extend(encode_sample(s(5)));
    file.extend(encode_sample(s(6)));
    assert_eq!(decode_samples(&file), Ok(vec![s(5), s(6)]));
    file.extend(&encode_sample(s(7))[..20]);
    assert_eq!(decode_samples(&file), Ok(vec![s(5), s(6)]));
    assert_eq!(decode_samples(b"MYMOD"), Err(PersistenceError::TruncatedHeader));
    assert_eq!(decode_samples(b"OTHERHDR and more"), Ok(vec![]));
}

#[test]
fn loading_filters_and_sorts() {
    let mut a = file_header();
    a.extend(encode_sample(s(30)));
    a.extend(encode_sample(s(10)));
    let mut b = file_header();
    b.extend(encode_sample(s(20)));
    b.extend(encode_sample(s(5)));
    assert_eq!(samples_since(&[a.clone(), b], 10), Ok(vec![s(10), s(20), s(30)]));
    assert_eq!(samples_since(&[a, vec![1, 2]], 0), Err((1, PersistenceError::TruncatedHeader)));
}

#[test]
fn file_names() {
    assert_eq!(persistence_file_name(1700000000, 0), "samples-1700000000.bin");
    assert_eq!(persistence_file_name(1700000000, 3), "samples-1700000000-3.bin");
    assert!(is_persistence_file("samples-1.bin"));
    assert!(!is_persistence_file("samples-1.bak"));
    assert!(!is_persistence_file("other-1.bin"));
}

#[test]
fn poll_timing() {
    assert_eq!(next_minute_after(0), 60);
    assert_eq!(next_minute_after(59), 60);
    assert_eq!(next_minute_after(60), 120);
    assert_eq!(seconds_until(100, 40), 60);
    assert_eq!(seconds_until(100, 140), 0);
    assert_eq!(next_minute_from(Some(61)), Some(120));
    assert_eq!(next_minute_from(None), None);
    assert_eq!(next_minute_from(Some(u64::MAX)), None);
    assert_eq!(next_minute_from(Some(u64::MAX / 60 * 60 - 1)), Some(u64::MAX / 60 * 60));
}

#[test]
fn register_table_lookup() {
    assert_eq!(register_db().len(), 108);
    let info = get_register("inverter_model").unwrap();
    assert_eq!(info.address, 30000);
    assert_eq!(info.count, Some(16));
    assert_eq!(read_plan(&info), Ok(ReadPlan::Text { address: 30000, count: 16 }));
    let pv = get_register("pv1_voltage").unwrap();
    assert_eq!(pv.scale, Some(Scale::Tenth));
    assert_eq!(pv.unit_of_measurement, Some("V"));
    assert_eq!(plan_for_id("pv1_voltage"), Ok(ReadPlan::U16 { address: 31000 }));
    assert_eq!(plan_for_id("load_energy_total"), Ok(ReadPlan::U32 { address: 32021 }));
    assert_eq!(plan_for_id("remote_control_active_power_command"), Ok(ReadPlan::I32 { address: 44002 }));
    assert_eq!(plan_for_id("nope"), Err(PlanError::UnknownRegister));
    let mut odd = info;
    odd.count = None;
    assert_eq!(read_plan(&odd), Err(PlanError::MissingCount));
    odd.data_type = "float";
    assert_eq!(read_plan(&odd), Err(PlanError::UnsupportedType("float")));
}

#[test]
fn appended_files_load_back() {
    let runs = [vec![s(40), s(10)], vec![], vec![s(30), s(35)]];
    let mut files = Vec::new();
    for (i, run) in runs.iter().enumerate() {
        let mut f = file_header();
        for x in run {
            f.extend(encode_sample(*x));
        }
        if i == 2 {
            f.extend(&encode_sample(s(99))[..31]);
        }
        files.push(f);
    }
    assert_eq!(samples_since(&files, 30), Ok(vec![s(30), s(35), s(40)]));
    assert!(!needs_rotation(1439, 1440));
    assert!(needs_rotation(1440, 1440));
}

#[test]
fn register_spans_do_not_overlap() {
    let db = register_db();
    let width = |e: &mymodbus::registers::RegisterEntry| match e.info.data_type {
        "uint16" => 1u32,
        "uint32" | "int32" => 2,
        "string" => e.info.count.expect("a text register has a count") as u32,
        other => panic!("unknown data type {other}"),
    };
    for i in 0..db.len() {
        assert!(read_plan(&db[i].info).is_ok());
        for j in i + 1..db.len() {
            assert!(db[i].info.address as u32 + width(&db[i]) <= db[j].info.address as u32);
        }
    }
}
