//! The languages of the interface, and the phrases that it shows.

use vstd::prelude::*;

verus! {

/// A language that the interface is available in.
#[derive(Clone, Copy, Debug, PartialEq, Eq, Structural)]
pub enum LanguageId {
    English,
    Dutch,
    Spanish,
    French,
    German,
    Japanese,
    Korean,
    TraditionalChinese,
}

/// The phrases of one language.
#[derive(Clone, Copy, Debug)]
pub struct Strings {
    pub window_title: &'static str,
    pub claude_code_model: &'static str,
    pub refresh: &'static str,
    pub settings: &'static str,
    pub format: &'static str,
    pub format_long: &'static str,
    pub format_short: &'static str,
    pub update_frequency: &'static str,
    pub one_minute: &'static str,
    pub five_minutes: &'static str,
    pub fifteen_minutes: &'static str,
    pub one_hour: &'static str,
    pub models: &'static str,
    pub start_with_windows: &'static str,
    pub reset_position: &'static str,
    pub language: &'static str,
    pub system_default: &'static str,
    pub show_widget: &'static str,
    pub exit: &'static str,
    pub updates: &'static str,
    pub check_for_updates: &'static str,
    pub checking_for_updates: &'static str,
    pub applying_update: &'static str,
    pub up_to_date: &'static str,
    pub up_to_date_short: &'static str,
    pub update_to: &'static str,
    pub update_available: &'static str,
    pub update_failed: &'static str,
    pub update_in_progress: &'static str,
    pub update_prompt_now: &'static str,
    pub token_expired_title: &'static str,
    pub token_expired_body: &'static str,
    pub now: &'static str,
    pub minute_suffix: &'static str,
    pub hour_suffix: &'static str,
    pub panel_waiting_for_data: &'static str,
    pub panel_error_missing_credentials: &'static str,
    pub panel_error_token_expired: &'static str,
    pub panel_retrying: &'static str,
    pub panel_last_known_data: &'static str,
    pub panel_weekly_label: &'static str,
    pub panel_resets: &'static str,
    pub panel_timer_until_reset: &'static str,
    pub panel_timer_left_session: &'static str,
}

} // verus!
