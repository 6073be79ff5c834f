mod activity;
mod log;
mod record;

pub use activity::{
    abort_model, clamped_elapsed, lemma_abort_after_completed, lemma_abort_idempotent,
    lemma_abort_preserves_wf, lemma_new_wf, lemma_update_preserves_wf, lemma_update_terminal_noop,
    new_model, update_model, wf, ActivityModel, Kind, KindModel, Pomodoro, Status, Timestamp,
};
pub use log::{
    free_of, is_single_line, lemma_log_append, lemma_log_line_count, lemma_single_line_count,
    log_content, newline_count,
};
pub use record::{
    chrono_representable, csv_line, dec_digits, digit_char, double_quotes, encode_field,
    encode_record, field_needs_quotes, is_csv_special, joined_fields, kind_newline_free,
    lemma_csv_line_single, record_fields, record_line, rfc3339_of, status_label, status_label_str,
    u64_to_dec, LogError,
};
