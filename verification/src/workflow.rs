//! What a run has done, and what it would do.
//!
//! The files themselves are moved, copied and converted by the caller. What
//! is decided here is what each outcome adds to the record of the run.

use vstd::prelude::*;
use vstd::string::*;
use crate::config::{Config, ConfigView};
use crate::destination::{ConversionResult, FileActionResult, PathResult};
use crate::paths::{extension, extension_of};

verus! {

/// The kinds of operation on a file.
#[derive(Debug, PartialEq, Eq)]
pub enum OperationType {
    /// The file is copied.
    Copy,
    /// The file is moved.
    Move,
    /// The file is converted, from the first format to the second.
    Convert(String, String),
}

/// The kinds of operation, without the formats of a conversion.
#[derive(Debug, Clone, Copy, PartialEq, Eq, Structural)]
pub enum OperationKind {
    Copy,
    Move,
    Convert,
}

/// An operation that a run without effect would have carried out.
#[derive(Debug)]
pub struct PlannedOperation {
    /// The path of the file.
    pub source: String,
    /// The path that the file would have.
    pub destination: String,
    /// What would be done.
    pub operation_type: OperationType,
    /// The title of the rule that applies.
    pub rule_title: String,
}

/// The counters of a run.
#[derive(Debug, Clone, Copy, PartialEq, Eq, Structural)]
pub struct WorkflowStats {
    pub files_processed: usize,
    pub files_matched: usize,
    pub files_moved: usize,
    pub files_copied: usize,
    pub files_converted: usize,
    pub errors: usize,
}

/// How a run is started.
#[derive(Debug)]
pub struct ProcessingOptions {
    /// The path of the configuration file.
    pub config_path: String,
    /// Whether the run is without effect on the files.
    pub dry_run: bool,
}

/// A run: its configuration and its record.
#[derive(Debug)]
pub struct WorkflowContext {
    /// The configuration.
    pub config: Config,
    /// Whether the run is without effect on the files.
    pub dry_run: bool,
    /// The counters.
    pub stats: WorkflowStats,
    /// What a run without effect would have done, in order.
    pub planned_operations: Vec<PlannedOperation>,
}

/// An [`OperationType`] with its texts as sequences of characters.
pub enum OperationTypeView {
    Copy,
    Move,
    Convert(Seq<char>, Seq<char>),
}

/// A [`PlannedOperation`] with its texts as sequences of characters.
pub struct PlannedOperationView {
    pub source: Seq<char>,
    pub destination: Seq<char>,
    pub operation_type: OperationTypeView,
    pub rule_title: Seq<char>,
}

/// A [`WorkflowContext`] with its texts as sequences of characters.
pub struct WorkflowContextView {
    pub config: ConfigView,
    pub dry_run: bool,
    pub stats: WorkflowStats,
    pub planned_operations: Seq<PlannedOperationView>,
}

impl View for OperationType {
    type V = OperationTypeView;

    open spec fn view(&self) -> OperationTypeView {
        match *self {
            OperationType::Copy => OperationTypeView::Copy,
            OperationType::Move => OperationTypeView::Move,
            OperationType::Convert(from, to) => OperationTypeView::Convert(from@, to@),
        }
    }
}

impl View for PlannedOperation {
    type V = PlannedOperationView;

    open spec fn view(&self) -> PlannedOperationView {
        PlannedOperationView {
            source: self.source@,
            destination: self.destination@,
            operation_type: self.operation_type@,
            rule_title: self.rule_title@,
        }
    }
}

impl DeepView for PlannedOperation {
    type V = PlannedOperationView;

    open spec fn deep_view(&self) -> PlannedOperationView {
        self@
    }
}

impl View for WorkflowContext {
    type V = WorkflowContextView;

    open spec fn view(&self) -> WorkflowContextView {
        WorkflowContextView {
            config: self.config@,
            dry_run: self.dry_run,
            stats: self.stats,
            planned_operations: self.planned_operations.deep_view(),
        }
    }
}

/// The kind of an operation.
pub open spec fn kind_of_operation(operation: OperationTypeView) -> OperationKind {
    match operation {
        OperationTypeView::Copy => OperationKind::Copy,
        OperationTypeView::Move => OperationKind::Move,
        OperationTypeView::Convert(_, _) => OperationKind::Convert,
    }
}

/// The operations of one kind among `planned`, in their order.
pub open spec fn planned_of(planned: Seq<PlannedOperationView>, kind: OperationKind) -> Seq<
    PlannedOperationView,
> {
    planned.filter(|op: PlannedOperationView| kind_of_operation(op.operation_type) == kind)
}

impl OperationType {
    /// The kind of the operation.
    pub fn kind(&self) -> (r: OperationKind)
        ensures
            r == kind_of_operation(self@),
    {
        match self {
            OperationType::Copy => OperationKind::Copy,
            OperationType::Move => OperationKind::Move,
            OperationType::Convert(_, _) => OperationKind::Convert,
        }
    }
}

impl Default for WorkflowStats {
    fn default() -> (r: Self)
        ensures
            r == (WorkflowStats {
                files_processed: 0,
                files_matched: 0,
                files_moved: 0,
                files_copied: 0,
                files_converted: 0,
                errors: 0,
            }),
    {
        WorkflowStats {
            files_processed: 0,
            files_matched: 0,
            files_moved: 0,
            files_copied: 0,
            files_converted: 0,
            errors: 0,
        }
    }
}

/// The extension of a path as an operation names it: `unknown` where the
/// path has none.
pub open spec fn format_of(path: Seq<char>) -> Seq<char> {
    match extension_of(path) {
        Some(ext) => ext,
        None => "unknown"@,
    }
}

/// Whether a conversion changed anything: the source or the destination.
pub open spec fn was_converted(before: &PathResult, after: &ConversionResult) -> bool {
    after.source_path@ != before.source_path@ || after.target_path@ != before.target_path@
}

/// The run after a conversion was decided.
pub open spec fn after_conversion(
    run: WorkflowContextView,
    before: &PathResult,
    after: &ConversionResult,
    rule_title: Seq<char>,
) -> WorkflowContextView {
    if !was_converted(before, after) {
        run
    } else {
        WorkflowContextView {
            stats: WorkflowStats { files_converted: (run.stats.files_converted + 1) as usize, ..run.stats },
            planned_operations: if run.dry_run {
                run.planned_operations.push(
                    PlannedOperationView {
                        source: after.source_path@,
                        destination: after.target_path@,
                        operation_type: OperationTypeView::Convert(
                            format_of(after.source_path@),
                            format_of(after.target_path@),
                        ),
                        rule_title,
                    },
                )
            } else {
                run.planned_operations
            },
            ..run
        }
    }
}

/// The run after an action on a file.
pub open spec fn after_action(
    run: WorkflowContextView,
    action: &FileActionResult,
    copy: bool,
    rule_title: Seq<char>,
) -> WorkflowContextView {
    if !action.success {
        run
    } else {
        WorkflowContextView {
            stats: if copy {
                WorkflowStats { files_copied: (run.stats.files_copied + 1) as usize, ..run.stats }
            } else {
                WorkflowStats { files_moved: (run.stats.files_moved + 1) as usize, ..run.stats }
            },
            planned_operations: if run.dry_run {
                run.planned_operations.push(
                    PlannedOperationView {
                        source: action.source_path@,
                        destination: action.target_path@,
                        operation_type: if copy {
                            OperationTypeView::Copy
                        } else {
                            OperationTypeView::Move
                        },
                        rule_title,
                    },
                )
            } else {
                run.planned_operations
            },
            ..run
        }
    }
}

/// The extension of a path as an operation names it.
fn format_name(path: &str) -> (r: String)
    ensures
        r@ == format_of(path@),
{
    match extension(path) {
        Some(ext) => ext,
        None => String::from_str("unknown"),
    }
}

impl WorkflowContext {
    /// A run that has done nothing yet.
    pub fn new(config: Config, dry_run: bool) -> (r: WorkflowContext)
        ensures
            r@ == (WorkflowContextView {
                config: config@,
                dry_run,
                stats: WorkflowStats {
                    files_processed: 0,
                    files_matched: 0,
                    files_moved: 0,
                    files_copied: 0,
                    files_converted: 0,
                    errors: 0,
                },
                planned_operations: Seq::empty(),
            }),
    {
        let planned_operations: Vec<PlannedOperation> = Vec::new();
        assert(planned_operations.deep_view() =~= Seq::<PlannedOperationView>::empty());
        WorkflowContext { config, dry_run, stats: WorkflowStats::default(), planned_operations }
    }

    /// How many operations of one kind the run would have carried out.
    pub fn count_planned(&self, kind: OperationKind) -> (r: usize)
        ensures
            r == planned_of(self@.planned_operations, kind).len(),
    {
        let ghost all = self.planned_operations.deep_view();
        let ghost keep = |op: PlannedOperationView| kind_of_operation(op.operation_type) == kind;
        let mut count: usize = 0;
        let mut i: usize = 0;
        proof {
            assert(all.take(0) =~= Seq::<PlannedOperationView>::empty());
            assert(all.take(0).filter(keep) =~= Seq::<PlannedOperationView>::empty());
        }
        while i < self.planned_operations.len()
            invariant
                i <= self.planned_operations.len(),
                all == self.planned_operations.deep_view(),
                keep == (|op: PlannedOperationView| kind_of_operation(op.operation_type) == kind),
                count == all.take(i as int).filter(keep).len(),
                count <= i,
            decreases self.planned_operations.len() - i,
        {
            proof {
                assert(all[i as int] == self.planned_operations[i as int]@);
                let so_far = all.take(i as int);
                let next = all.take(i + 1);
                assert(next =~= so_far.push(all[i as int]));
                assert(next.drop_last() =~= so_far);
                reveal(Seq::filter);
            }
            if self.planned_operations[i].operation_type.kind() == kind {
                count += 1;
            }
            i += 1;
        }
        proof {
            assert(all.take(self.planned_operations.len() as int) =~= all);
        }
        count
    }

    /// Adds an operation to those that the run would have carried out.
    pub fn add_planned_operation(&mut self, operation: PlannedOperation)
        ensures
            final(self)@ == (WorkflowContextView {
                planned_operations: old(self)@.planned_operations.push(operation@),
                ..old(self)@
            }),
    {
        self.planned_operations.push(operation);
        assert(self.planned_operations.deep_view() =~= old(self).planned_operations.deep_view().push(
            operation@,
        ));
    }

    /// Counts a file that was looked at.
    pub fn increment_files_processed(&mut self)
        requires
            old(self).stats.files_processed < usize::MAX,
        ensures
            final(self)@ == (WorkflowContextView {
                stats: WorkflowStats {
                    files_processed: (old(self).stats.files_processed + 1) as usize,
                    ..old(self).stats
                },
                ..old(self)@
            }),
    {
        self.stats.files_processed += 1;
    }

    /// Counts a rule that applied to a file.
    pub fn increment_files_matched(&mut self)
        requires
            old(self).stats.files_matched < usize::MAX,
        ensures
            final(self)@ == (WorkflowContextView {
                stats: WorkflowStats {
                    files_matched: (old(self).stats.files_matched + 1) as usize,
                    ..old(self).stats
                },
                ..old(self)@
            }),
    {
        self.stats.files_matched += 1;
    }

    /// Counts a file that was moved.
    pub fn increment_files_moved(&mut self)
        requires
            old(self).stats.files_moved < usize::MAX,
        ensures
            final(self)@ == (WorkflowContextView {
                stats: WorkflowStats {
                    files_moved: (old(self).stats.files_moved + 1) as usize,
                    ..old(self).stats
                },
                ..old(self)@
            }),
    {
        self.stats.files_moved += 1;
    }

    /// Counts a file that was copied.
    pub fn increment_files_copied(&mut self)
        requires
            old(self).stats.files_copied < usize::MAX,
        ensures
            final(self)@ == (WorkflowContextView {
                stats: WorkflowStats {
                    files_copied: (old(self).stats.files_copied + 1) as usize,
                    ..old(self).stats
                },
                ..old(self)@
            }),
    {
        self.stats.files_copied += 1;
    }

    /// Counts a file that was converted.
    pub fn increment_files_converted(&mut self)
        requires
            old(self).stats.files_converted < usize::MAX,
        ensures
            final(self)@ == (WorkflowContextView {
                stats: WorkflowStats {
                    files_converted: (old(self).stats.files_converted + 1) as usize,
                    ..old(self).stats
                },
                ..old(self)@
            }),
    {
        self.stats.files_converted += 1;
    }

    /// Counts a step that failed.
    pub fn increment_errors(&mut self)
        requires
            old(self).stats.errors < usize::MAX,
        ensures
            final(self)@ == (WorkflowContextView {
                stats: WorkflowStats {
                    errors: (old(self).stats.errors + 1) as usize,
                    ..old(self).stats
                },
                ..old(self)@
            }),
    {
        self.stats.errors += 1;
    }

    /// Records what the conversion of a file came to: where it changed the
    /// source or the destination, the file counts as converted, and a run
    /// without effect notes the conversion with the extensions of both.
    pub fn record_conversion(&mut self, before: &PathResult, after: &ConversionResult, rule_title: &str)
        requires
            old(self).stats.files_converted < usize::MAX,
        ensures
            final(self)@ == after_conversion(old(self)@, before, after, rule_title@),
    {
        if after.source_path != before.source_path || after.target_path != before.target_path {
            self.increment_files_converted();
            if self.dry_run {
                let from = format_name(after.source_path.as_str());
                let to = format_name(after.target_path.as_str());
                self.add_planned_operation(
                    PlannedOperation {
                        source: after.source_path.clone(),
                        destination: after.target_path.clone(),
                        operation_type: OperationType::Convert(from, to),
                        rule_title: String::from_str(rule_title),
                    },
                );
            }
        }
    }

    /// Records what became of a file: where the action succeeded, the file
    /// counts as copied or as moved, and a run without effect notes the
    /// operation.
    pub fn record_action(&mut self, action: &FileActionResult, copy: bool, rule_title: &str)
        requires
            old(self).stats.files_copied < usize::MAX,
            old(self).stats.files_moved < usize::MAX,
        ensures
            final(self)@ == after_action(old(self)@, action, copy, rule_title@),
    {
        if action.success {
            if copy {
                self.increment_files_copied();
            } else {
                self.increment_files_moved();
            }
            if self.dry_run {
                let operation_type = if copy {
                    OperationType::Copy
                } else {
                    OperationType::Move
                };
                self.add_planned_operation(
                    PlannedOperation {
                        source: action.source_path.clone(),
                        destination: action.target_path.clone(),
                        operation_type,
                        rule_title: String::from_str(rule_title),
                    },
                );
            }
        }
    }
}

} // verus!
