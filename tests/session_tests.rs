use query_bridge::session::{
    csv_registration, datafusion_context_free, datafusion_context_new,
    datafusion_result_batch_count, datafusion_result_batch_num_columns,
    datafusion_result_batch_num_rows, datafusion_result_free, datafusion_sql, query_text, Batch,
    DataFusionResult,
};
use query_bridge::status::{
    datafusion_get_last_error, status_of, DATAFUSION_ERROR, DATAFUSION_OK,
};
use query_bridge::text::text_of;

fn batch(rows: usize, columns: usize) -> Batch<&'static str> {
    Batch { data: "batch", rows, columns }
}

fn two_batches() -> DataFusionResult<&'static str> {
    datafusion_sql::<&'static str, String>(Ok(vec![batch(3, 2), batch(5, 4)])).unwrap()
}

#[test]
fn context_open_close_cycles() {
    for i in 0..20u32 {
        let ctx = datafusion_context_new(i).expect("a scheduler starts");
        assert_eq!(*ctx.session(), i);
        datafusion_context_free(Some(ctx));
    }
}

#[test]
fn context_free_absent_is_noop() {
    datafusion_context_free::<u32>(None);
}

#[test]
fn context_bridge_runs_work() {
    let ctx = datafusion_context_new("session").unwrap();
    let v = ctx.bridge().block_on(async { 40 + 2 });
    assert_eq!(v, 42);
    datafusion_context_free(Some(ctx));
}

#[test]
fn text_of_decodes_utf8() {
    assert_eq!(text_of(Some("événement".as_bytes())), Some("événement".to_string()));
    assert_eq!(text_of(Some(b"plain")), Some("plain".to_string()));
    assert_eq!(text_of(Some(b"")), Some(String::new()));
}

#[test]
fn text_of_rejects_bad_utf8_and_null() {
    assert_eq!(text_of(Some(&[0x66, 0xff, 0x6f])), None);
    assert_eq!(text_of(Some(&[0xc3])), None);
    assert_eq!(text_of(None), None);
}

#[test]
fn csv_registration_valid_arguments() {
    let ctx = datafusion_context_new(()).unwrap();
    let r = csv_registration(Some(&ctx), Some(b"events"), Some(b"/data/events.csv"));
    assert_eq!(r, Some(("events".to_string(), "/data/events.csv".to_string())));
}

#[test]
fn csv_registration_null_and_bad_arguments() {
    let ctx = datafusion_context_new(()).unwrap();
    assert_eq!(csv_registration::<()>(None, Some(b"t"), Some(b"p")), None);
    assert_eq!(csv_registration(Some(&ctx), None, Some(b"p")), None);
    assert_eq!(csv_registration(Some(&ctx), Some(b"t"), None), None);
    assert_eq!(csv_registration(Some(&ctx), Some(&[0xff]), Some(b"p")), None);
    assert_eq!(csv_registration(Some(&ctx), Some(b"t"), Some(&[0x80])), None);
}

#[test]
fn query_text_arguments() {
    let ctx = datafusion_context_new(()).unwrap();
    assert_eq!(query_text(Some(&ctx), Some(b"select 1")), Some("select 1".to_string()));
    assert_eq!(query_text::<()>(None, Some(b"select 1")), None);
    assert_eq!(query_text(Some(&ctx), None), None);
    assert_eq!(query_text(Some(&ctx), Some(&[0xfe, 0x20])), None);
}

#[test]
fn failed_query_gives_no_result() {
    let r = datafusion_sql::<u8, String>(Err("syntax error at SELEC".to_string()));
    assert!(r.is_none());
}

#[test]
fn empty_output_still_gives_result() {
    let r = datafusion_sql::<u8, String>(Ok(vec![])).unwrap();
    assert_eq!(datafusion_result_batch_count(Some(&r)), 0);
    assert_eq!(datafusion_result_batch_num_rows(Some(&r), 0), 0);
}

#[test]
fn result_counts() {
    let r = two_batches();
    assert_eq!(datafusion_result_batch_count(Some(&r)), 2);
    assert_eq!(datafusion_result_batch_num_rows(Some(&r), 0), 3);
    assert_eq!(datafusion_result_batch_num_rows(Some(&r), 1), 5);
    assert_eq!(datafusion_result_batch_num_columns(Some(&r), 0), 2);
    assert_eq!(datafusion_result_batch_num_columns(Some(&r), 1), 4);
    assert_eq!(r.batches().len(), 2);
    assert_eq!(r.batches()[1].data, "batch");
}

#[test]
fn result_index_at_or_past_count_is_zero() {
    let r = two_batches();
    assert_eq!(datafusion_result_batch_num_rows(Some(&r), 2), 0);
    assert_eq!(datafusion_result_batch_num_columns(Some(&r), 2), 0);
    assert_eq!(datafusion_result_batch_num_rows(Some(&r), i32::MAX), 0);
    assert_eq!(datafusion_result_batch_num_columns(Some(&r), 7), 0);
}

#[test]
fn result_negative_index_is_zero() {
    let r = two_batches();
    assert_eq!(datafusion_result_batch_num_rows(Some(&r), -1), 0);
    assert_eq!(datafusion_result_batch_num_columns(Some(&r), i32::MIN), 0);
}

#[test]
fn result_absent_is_zero() {
    assert_eq!(datafusion_result_batch_count::<u8>(None), 0);
    assert_eq!(datafusion_result_batch_num_rows::<u8>(None, 0), 0);
    assert_eq!(datafusion_result_batch_num_columns::<u8>(None, 0), 0);
}

#[test]
fn result_count_past_int_saturates() {
    let big = Batch { data: (), rows: usize::MAX, columns: 3 };
    let r = datafusion_sql::<(), ()>(Ok(vec![big])).unwrap();
    assert_eq!(datafusion_result_batch_num_rows(Some(&r), 0), i32::MAX);
    assert_eq!(datafusion_result_batch_num_columns(Some(&r), 0), 3);
}

#[test]
fn result_free_then_absent_free() {
    let r = two_batches();
    datafusion_result_free(Some(r));
    datafusion_result_free::<u8>(None);
}

#[test]
fn status_codes() {
    assert_eq!(DATAFUSION_OK, 0);
    assert_eq!(DATAFUSION_ERROR, -1);
    assert_eq!(status_of(true), DATAFUSION_OK);
    assert_eq!(status_of(false), DATAFUSION_ERROR);
}

#[test]
fn last_error_is_fixed_text() {
    assert_eq!(datafusion_get_last_error(), "DataFusion error occurred");
}

#[test]
fn context_needs_a_scheduler() {
    assert!(query_bridge::session::context_with_bridge(None, 5u8).is_none());
    let rt = tokio::runtime::Runtime::new().unwrap();
    let ctx = query_bridge::session::context_with_bridge(Some(rt), 5u8).unwrap();
    assert_eq!(*ctx.session(), 5);
}
