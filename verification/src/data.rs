use vstd::prelude::*;

verus! {

/// The configuration exchanged with the remote service. It round-trips
/// through save and load unchanged; the library validates nothing beyond
/// its shape.
#[derive(Debug, PartialEq, Eq)]
pub struct AppConfig {
    pub server_url: String,
    pub target_folder: String,
    pub file_list_url: String,
    pub download_speed_limit: u64,
}

/// Mathematical image of an [`AppConfig`].
pub struct AppConfigView {
    pub server_url: Seq<char>,
    pub target_folder: Seq<char>,
    pub file_list_url: Seq<char>,
    pub download_speed_limit: u64,
}

impl View for AppConfig {
    type V = AppConfigView;

    open spec fn view(&self) -> AppConfigView {
        AppConfigView {
            server_url: self.server_url@,
            target_folder: self.target_folder@,
            file_list_url: self.file_list_url@,
            download_speed_limit: self.download_speed_limit,
        }
    }
}

impl AppConfig {
    /// A field-for-field copy of the configuration.
    pub fn duplicate(&self) -> (r: AppConfig)
        ensures
            r@ == self@,
    {
        AppConfig {
            server_url: self.server_url.clone(),
            target_folder: self.target_folder.clone(),
            file_list_url: self.file_list_url.clone(),
            download_speed_limit: self.download_speed_limit,
        }
    }
}

/// One log line reported by the remote service: a message and a free-form
/// severity/category tag.
#[derive(Debug, PartialEq, Eq)]
pub struct LogEntry {
    pub message: String,
    pub log_type: String,
}

/// Mathematical image of a [`LogEntry`].
pub struct LogEntryView {
    pub message: Seq<char>,
    pub log_type: Seq<char>,
}

impl View for LogEntry {
    type V = LogEntryView;

    open spec fn view(&self) -> LogEntryView {
        LogEntryView { message: self.message@, log_type: self.log_type@ }
    }
}

impl LogEntry {
    /// A field-for-field copy of the entry.
    pub fn duplicate(&self) -> (r: LogEntry)
        ensures
            r@ == self@,
    {
        LogEntry { message: self.message.clone(), log_type: self.log_type.clone() }
    }
}

/// The verification half of a terminal status report.
#[derive(Debug, PartialEq, Eq)]
pub struct VerificationReport {
    pub verified: Vec<String>,
    pub corrupted: Vec<String>,
}

/// Mathematical image of a [`VerificationReport`].
pub struct VerificationReportView {
    pub verified: Seq<Seq<char>>,
    pub corrupted: Seq<Seq<char>>,
}

/// The identifier sequences of a `Vec<String>`, as a sequence of
/// character sequences.
pub open spec fn names_view(v: Seq<String>) -> Seq<Seq<char>> {
    v.map_values(|s: String| s@)
}

impl View for VerificationReport {
    type V = VerificationReportView;

    open spec fn view(&self) -> VerificationReportView {
        VerificationReportView {
            verified: names_view(self.verified@),
            corrupted: names_view(self.corrupted@),
        }
    }
}

/// The report the remote service produces once, at the terminal poll,
/// and which is forwarded verbatim to the event sink.
#[derive(Debug, PartialEq, Eq)]
pub struct StatusReport {
    pub updated: Vec<String>,
    pub skipped: Vec<String>,
    pub failed: Vec<String>,
    pub verification: VerificationReport,
}

/// Mathematical image of a [`StatusReport`].
pub struct StatusReportView {
    pub updated: Seq<Seq<char>>,
    pub skipped: Seq<Seq<char>>,
    pub failed: Seq<Seq<char>>,
    pub verification: VerificationReportView,
}

impl View for StatusReport {
    type V = StatusReportView;

    open spec fn view(&self) -> StatusReportView {
        StatusReportView {
            updated: names_view(self.updated@),
            skipped: names_view(self.skipped@),
            failed: names_view(self.failed@),
            verification: self.verification@,
        }
    }
}

/// One polled status snapshot. It exists only for the duration of a poll
/// run; across the polls of one run the log sequence only grows by
/// appending.
#[derive(Debug, PartialEq, Eq)]
pub struct ProgressData {
    pub progress: usize,
    pub total: usize,
    pub logs: Vec<LogEntry>,
    pub completed: bool,
    pub error: Option<String>,
    pub status_report: Option<StatusReport>,
}

/// Mathematical image of a [`ProgressData`].
pub struct ProgressDataView {
    pub progress: int,
    pub total: int,
    pub logs: Seq<LogEntryView>,
    pub completed: bool,
    pub error: Option<Seq<char>>,
    pub status_report: Option<StatusReportView>,
}

/// The log sequence of a snapshot, as views.
pub open spec fn logs_view(l: Seq<LogEntry>) -> Seq<LogEntryView> {
    l.map_values(|e: LogEntry| e@)
}

impl View for ProgressData {
    type V = ProgressDataView;

    open spec fn view(&self) -> ProgressDataView {
        ProgressDataView {
            progress: self.progress as int,
            total: self.total as int,
            logs: logs_view(self.logs@),
            completed: self.completed,
            error: match self.error {
                Some(e) => Some(e@),
                None => None,
            },
            status_report: match self.status_report {
                Some(r) => Some(r@),
                None => None,
            },
        }
    }
}

} // verus!
