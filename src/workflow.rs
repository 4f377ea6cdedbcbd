use vstd::prelude::*;

verus! {

pub open spec fn is_lower_hex(c: char) -> bool {
    ('0' <= c && c <= '9') || ('a' <= c && c <= 'f')
}

/// A version-4 UUID in hyphenated lowercase form: 8-4-4-4-12 hex digits, the
/// version digit 4 and a variant digit among 8, 9, a, b.
pub open spec fn is_uuid_v4_text(u: Seq<char>) -> bool {
    &&& u.len() == 36
    &&& forall|i: int|
        0 <= i < 36 ==> if i == 8 || i == 13 || i == 18 || i == 23 {
            #[trigger] u[i] == '-'
        } else {
            is_lower_hex(u[i])
        }
    &&& u[14] == '4'
    &&& (u[19] == '8' || u[19] == '9' || u[19] == 'a' || u[19] == 'b')
}

/// Relies on uuid::Uuid::new_v4 and its Display impl: random bits with the
/// version and variant set, written in the hyphenated lowercase form.
#[verifier::external_body]
fn fresh_uuid() -> (r: String)
    ensures
        is_uuid_v4_text(r@),
{
    uuid::Uuid::new_v4().to_string()
}

/// Milliseconds from `from` to `to`; a clock that went backwards counts as zero.
pub open spec fn elapsed_ms(from: u64, to: u64) -> u64 {
    if to >= from {
        (to - from) as u64
    } else {
        0
    }
}

/// Sum of the recorded stage durations.
pub open spec fn total_stage_ms(stages: Seq<(Seq<char>, u64)>) -> int
    decreases stages.len(),
{
    if stages.len() == 0 {
        0
    } else {
        total_stage_ms(stages.drop_last()) + stages.last().1
    }
}

/// Mean stage duration, zero when no stage was recorded.
pub open spec fn average_stage_ms(stages: Seq<(Seq<char>, u64)>) -> int {
    if stages.len() == 0 {
        0
    } else {
        total_stage_ms(stages) / (stages.len() as int)
    }
}

/// Text of the record that opens a run's log.
pub const START_MESSAGE: &'static str = "Voice input processing initiated.";

/// One completed stage: its name and how long it took.
pub struct StageRecord {
    pub name: String,
    pub duration_ms: u64,
}

/// What a workflow run has to append to its log.
pub enum LogRecord {
    Start { message: String },
    Stage { name: String, duration_ms: u64 },
    End { status: String, total_ms: u64, stage_count: usize, avg_stage_ms: u64 },
}

/// Abstract state of a workflow run.
pub struct WorkflowView {
    pub id: Seq<char>,
    pub start_ms: u64,
    pub stage_start_ms: u64,
    pub stages: Seq<(Seq<char>, u64)>,
    pub log_file_path: Seq<char>,
}

/// Timing recorder for one user-visible operation. Clock readings are handed in
/// as milliseconds since the epoch.
pub struct WorkflowTimings {
    workflow_id: String,
    start_ms: u64,
    stage_start_ms: u64,
    stages_data: Vec<StageRecord>,
    log_file_path: String,
}

pub open spec fn stage_view(s: StageRecord) -> (Seq<char>, u64) {
    (s.name@, s.duration_ms)
}

impl View for WorkflowTimings {
    type V = WorkflowView;

    closed spec fn view(&self) -> WorkflowView {
        WorkflowView {
            id: self.workflow_id@,
            start_ms: self.start_ms,
            stage_start_ms: self.stage_start_ms,
            stages: self.stages_data@.map_values(|s: StageRecord| stage_view(s)),
            log_file_path: self.log_file_path@,
        }
    }
}

impl WorkflowTimings {
    /// Starts a run whose id is `id_prefix`, a dash, then a fresh random identifier.
    pub fn new(id_prefix: &str, log_file: &str, now_ms: u64) -> (r: WorkflowTimings)
        ensures
            r@.id.len() == id_prefix@.len() + 37,
            r@.id.subrange(0, id_prefix@.len() as int) == id_prefix@,
            r@.id[id_prefix@.len() as int] == '-',
            is_uuid_v4_text(r@.id.skip(id_prefix@.len() as int + 1)),
            r@.start_ms == now_ms,
            r@.stage_start_ms == now_ms,
            r@.stages.len() == 0,
            r@.log_file_path == log_file@,
    {
        let unique = fresh_uuid();
        let r = Self::with_id(id_prefix, &unique, log_file, now_ms);
        proof {
            assert(r@.id.skip(id_prefix@.len() as int + 1) =~= unique@);
        }
        r
    }

    /// Starts a run whose id is `id_prefix`, a dash, then `unique`.
    pub fn with_id(id_prefix: &str, unique: &String, log_file: &str, now_ms: u64) -> (r:
        WorkflowTimings)
        ensures
            r@.id == id_prefix@ + seq!['-'] + unique@,
            r@.start_ms == now_ms,
            r@.stage_start_ms == now_ms,
            r@.stages.len() == 0,
            r@.log_file_path == log_file@,
    {
        let mut id = String::from_str(id_prefix);
        id.append("-");
        id.append(unique.as_str());
        proof {
            reveal_strlit("-");
        }
        let r = WorkflowTimings {
            workflow_id: id,
            start_ms: now_ms,
            stage_start_ms: now_ms,
            stages_data: Vec::new(),
            log_file_path: String::from_str(log_file),
        };
        proof {
            assert(r@.stages =~= Seq::<(Seq<char>, u64)>::empty());
        }
        r
    }

    /// The record that opens the run's log.
    pub fn start_record(&self) -> (r: LogRecord)
        ensures
            r matches LogRecord::Start { message } && message@ == START_MESSAGE@,
    {
        LogRecord::Start { message: String::from_str(START_MESSAGE) }
    }

    /// Resets the start time of the next stage.
    pub fn start_new_stage(&mut self, now_ms: u64)
        ensures
            final(self)@ == (WorkflowView { stage_start_ms: now_ms, ..old(self)@ }),
    {
        self.stage_start_ms = now_ms;
    }

    /// Records the stage that just completed, with the time elapsed since the last
    /// stage boundary, and starts the next stage.
    pub fn record_stage(&mut self, stage_name: String, now_ms: u64) -> (r: LogRecord)
        ensures
            final(self)@.stages == old(self)@.stages.push(
                (stage_name@, elapsed_ms(old(self)@.stage_start_ms, now_ms)),
            ),
            final(self)@.stage_start_ms == now_ms,
            final(self)@.id == old(self)@.id,
            final(self)@.start_ms == old(self)@.start_ms,
            final(self)@.log_file_path == old(self)@.log_file_path,
            r == (LogRecord::Stage {
                name: stage_name,
                duration_ms: elapsed_ms(old(self)@.stage_start_ms, now_ms),
            }),
    {
        let duration: u64 = if now_ms >= self.stage_start_ms {
            now_ms - self.stage_start_ms
        } else {
            0
        };
        let logged = stage_name.clone();
        self.stages_data.push(StageRecord { name: stage_name, duration_ms: duration });
        self.start_new_stage(now_ms);
        proof {
            assert(self@.stages =~= old(self)@.stages.push((logged@, duration)));
        }
        LogRecord::Stage { name: logged, duration_ms: duration }
    }

    /// The closing summary of the run: total time since creation, number of stages
    /// and their mean duration (zero when there is none).
    pub fn finalize_and_log(&self, overall_status_message: &str, now_ms: u64) -> (r: LogRecord)
        ensures
            r matches LogRecord::End { status, total_ms, stage_count, avg_stage_ms }
                && status@ == overall_status_message@
                && total_ms == elapsed_ms(self@.start_ms, now_ms)
                && stage_count == self@.stages.len()
                && avg_stage_ms == average_stage_ms(self@.stages),
    {
        let total: u64 = if now_ms >= self.start_ms {
            now_ms - self.start_ms
        } else {
            0
        };
        let n = self.stages_data.len();
        let ghost stages = self@.stages;
        let mut sum: u128 = 0;
        let mut i: usize = 0;
        while i < n
            invariant
                n == self.stages_data@.len(),
                stages == self@.stages,
                stages.len() == n,
                i <= n,
                sum == total_stage_ms(stages.take(i as int)),
                sum <= i * 0xFFFF_FFFF_FFFF_FFFFu128,
            decreases n - i,
        {
            proof {
                assert(stages.take(i + 1).drop_last() =~= stages.take(i as int));
                assert(i * 0xFFFF_FFFF_FFFF_FFFFu128 + 0xFFFF_FFFF_FFFF_FFFFu128 == (i + 1)
                    * 0xFFFF_FFFF_FFFF_FFFFu128) by (nonlinear_arith);
                assert((i + 1) * 0xFFFF_FFFF_FFFF_FFFFu128 <= 0x1_0000_0000_0000_0000u128
                    * 0xFFFF_FFFF_FFFF_FFFFu128) by (nonlinear_arith)
                    requires
                        i < n,
                        n <= usize::MAX,
                ;
            }
            sum = sum + self.stages_data[i].duration_ms as u128;
            i = i + 1;
        }
        proof {
            assert(stages.take(n as int) =~= stages);
        }
        let avg: u64 = if n > 0 {
            proof {
                assert(sum / (n as u128) <= 0xFFFF_FFFF_FFFF_FFFFu128) by (nonlinear_arith)
                    requires
                        sum <= n * 0xFFFF_FFFF_FFFF_FFFFu128,
                        n > 0,
                ;
            }
            (sum / (n as u128)) as u64
        } else {
            0
        };
        LogRecord::End {
            status: String::from_str(overall_status_message),
            total_ms: total,
            stage_count: n,
            avg_stage_ms: avg,
        }
    }

    /// The run's identifier.
    pub fn workflow_id(&self) -> (r: &String)
        ensures
            r@ == self@.id,
    {
        &self.workflow_id
    }

    /// Where the run's log lines go.
    pub fn log_file_path(&self) -> (r: &String)
        ensures
            r@ == self@.log_file_path,
    {
        &self.log_file_path
    }
}

} // verus!
