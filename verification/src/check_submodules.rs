//! Inspection of a repository's submodules: which of them are modified in
//! the working tree, and which have a change staged for the next commit.

use std::path::PathBuf;
use vstd::prelude::*;
use vstd::string::StringExecFns;
use crate::repository::{
    list_submodules, open_repository, status_is_index_modified, status_is_wd_modified,
    submodule_name, submodule_status,
};

verus! {

/// The two findings that are reported of a submodule. They are independent
/// facts: one submodule may show both.
#[derive(Clone, Copy, Debug, PartialEq, Eq, Structural)]
pub enum Bucket {
    /// The checked-out commit differs from the staged one.
    NotStaged,
    /// The staged commit differs from the committed one.
    Staged,
}

/// Why an inspection could not be completed.
#[derive(Clone, Copy, Debug, PartialEq, Eq, Structural)]
pub enum CheckError {
    /// The path holds no repository that can be opened.
    RepoOpen,
    /// The repository's submodules could not be listed.
    SubmoduleList,
    /// The status of one submodule could not be looked up.
    StatusQuery,
}

/// What was learned of one listed submodule.
#[derive(Debug, PartialEq, Eq)]
pub enum SubmoduleProbe {
    /// Its name could not be resolved.
    Unnamed,
    /// Its status could not be looked up.
    StatusUnavailable,
    /// Its name and the two facts that its status gives.
    Status { name: String, wd_modified: bool, index_modified: bool },
}

/// What was learned of a repository.
#[derive(Debug, PartialEq, Eq)]
pub enum RepositoryProbe {
    /// It could not be opened.
    Unopenable,
    /// It was opened, but its submodules could not be listed.
    Unlistable,
    /// Its submodules, in the order in which they were listed.
    Submodules(Vec<SubmoduleProbe>),
}

/// The names of the modified submodules, in the order in which the
/// repository lists them.
#[derive(Debug)]
pub struct SubmodulesDiagnostic {
    pub modified_not_staged_submodules: Vec<String>,
    pub modified_staged_submodules: Vec<String>,
}

/// A `SubmoduleProbe` as a mathematical value.
pub enum SubmoduleProbeView {
    Unnamed,
    StatusUnavailable,
    Status { name: Seq<char>, wd_modified: bool, index_modified: bool },
}

/// A `RepositoryProbe` as a mathematical value.
pub enum RepositoryProbeView {
    Unopenable,
    Unlistable,
    Submodules(Seq<SubmoduleProbeView>),
}

/// A `SubmodulesDiagnostic` as a mathematical value.
pub struct DiagnosticView {
    pub modified_not_staged: Seq<Seq<char>>,
    pub modified_staged: Seq<Seq<char>>,
}

/// The texts of a sequence of strings.
pub open spec fn spec_texts(names: Seq<String>) -> Seq<Seq<char>> {
    names.map_values(|name: String| name@)
}

/// The views of a sequence of probes.
pub open spec fn spec_probe_views(probes: Seq<SubmoduleProbe>) -> Seq<SubmoduleProbeView> {
    probes.map_values(|probe: SubmoduleProbe| probe@)
}

impl View for SubmoduleProbe {
    type V = SubmoduleProbeView;

    open spec fn view(&self) -> SubmoduleProbeView {
        match *self {
            SubmoduleProbe::Unnamed => SubmoduleProbeView::Unnamed,
            SubmoduleProbe::StatusUnavailable => SubmoduleProbeView::StatusUnavailable,
            SubmoduleProbe::Status { name, wd_modified, index_modified } => {
                SubmoduleProbeView::Status { name: name@, wd_modified, index_modified }
            },
        }
    }
}

impl View for RepositoryProbe {
    type V = RepositoryProbeView;

    open spec fn view(&self) -> RepositoryProbeView {
        match *self {
            RepositoryProbe::Unopenable => RepositoryProbeView::Unopenable,
            RepositoryProbe::Unlistable => RepositoryProbeView::Unlistable,
            RepositoryProbe::Submodules(probes) => RepositoryProbeView::Submodules(
                spec_probe_views(probes@),
            ),
        }
    }
}

impl View for SubmodulesDiagnostic {
    type V = DiagnosticView;

    open spec fn view(&self) -> DiagnosticView {
        DiagnosticView {
            modified_not_staged: spec_texts(self.modified_not_staged_submodules@),
            modified_staged: spec_texts(self.modified_staged_submodules@),
        }
    }
}

impl SubmoduleProbeView {
    /// Whether the probe reports the finding `bucket` of its submodule.
    pub open spec fn shows(self, bucket: Bucket) -> bool {
        match self {
            SubmoduleProbeView::Status { wd_modified, index_modified, .. } => match bucket {
                Bucket::NotStaged => wd_modified,
                Bucket::Staged => index_modified,
            },
            _ => false,
        }
    }
}

/// Whether the status of some probed submodule could not be looked up.
pub open spec fn spec_status_failed(probes: Seq<SubmoduleProbeView>) -> bool {
    exists|i: int| 0 <= i < probes.len() && #[trigger] probes[i] is StatusUnavailable
}

/// The names of the probed submodules that show the finding `bucket`, in
/// the order of the probes.
pub open spec fn spec_names(probes: Seq<SubmoduleProbeView>, bucket: Bucket) -> Seq<Seq<char>>
    decreases probes.len(),
{
    if probes.len() == 0 {
        Seq::empty()
    } else {
        let earlier = spec_names(probes.drop_last(), bucket);
        if probes.last().shows(bucket) {
            earlier.push(probes.last()->name)
        } else {
            earlier
        }
    }
}

/// The diagnostic that a complete list of probes gives.
pub open spec fn spec_classify(probes: Seq<SubmoduleProbeView>) -> DiagnosticView {
    DiagnosticView {
        modified_not_staged: spec_names(probes, Bucket::NotStaged),
        modified_staged: spec_names(probes, Bucket::Staged),
    }
}

/// Whether what was learned of the repository leaves the inspection
/// incomplete.
pub open spec fn spec_incomplete(probe: RepositoryProbeView) -> bool {
    match probe {
        RepositoryProbeView::Unopenable => true,
        RepositoryProbeView::Unlistable => true,
        RepositoryProbeView::Submodules(probes) => spec_status_failed(probes),
    }
}

/// How an inspection that could not be completed ends: with the error where
/// the run is strict, without a diagnostic where it is not.
pub open spec fn spec_bail(strict: bool, error: CheckError) -> Result<
    Option<DiagnosticView>,
    CheckError,
> {
    if strict {
        Err(error)
    } else {
        Ok(None)
    }
}

/// How the inspection of a repository ends, given what was learned of it.
pub open spec fn spec_inspect(strict: bool, probe: RepositoryProbeView) -> Result<
    Option<DiagnosticView>,
    CheckError,
> {
    match probe {
        RepositoryProbeView::Unopenable => spec_bail(strict, CheckError::RepoOpen),
        RepositoryProbeView::Unlistable => spec_bail(strict, CheckError::SubmoduleList),
        RepositoryProbeView::Submodules(probes) => if spec_status_failed(probes) {
            spec_bail(strict, CheckError::StatusQuery)
        } else {
            Ok(Some(spec_classify(probes)))
        },
    }
}

/// The result of an inspection as a mathematical value.
pub open spec fn spec_inspection_view(
    inspection: Result<Option<SubmodulesDiagnostic>, CheckError>,
) -> Result<Option<DiagnosticView>, CheckError> {
    match inspection {
        Ok(Some(diagnostic)) => Ok(Some(diagnostic@)),
        Ok(None) => Ok(None),
        Err(error) => Err(error),
    }
}

/// Whether no probe but the last reports a failed status lookup: probing
/// stops at the first failure.
pub open spec fn spec_stops_at_failure(probes: Seq<SubmoduleProbeView>) -> bool {
    forall|i: int| 0 <= i < probes.len() - 1 ==> !(#[trigger] probes[i] is StatusUnavailable)
}

impl CheckError {
    /// The one-line reason that is shown to the operator.
    pub fn message(&self) -> (text: String)
        ensures
            text@ == self.spec_message(),
    {
        match self {
            CheckError::RepoOpen => String::from_str("Unable to open repository"),
            CheckError::SubmoduleList => String::from_str("Failed to list submodules."),
            CheckError::StatusQuery => String::from_str("Failed to query submodule status."),
        }
    }

    /// The text of `message`.
    pub open spec fn spec_message(self) -> Seq<char> {
        match self {
            CheckError::RepoOpen => "Unable to open repository"@,
            CheckError::SubmoduleList => "Failed to list submodules."@,
            CheckError::StatusQuery => "Failed to query submodule status."@,
        }
    }
}

/// Ends an inspection that could not be completed.
pub fn bail(strict: bool, error: CheckError) -> (inspection: Result<
    Option<SubmodulesDiagnostic>,
    CheckError,
>)
    ensures
        spec_inspection_view(inspection) == spec_bail(strict, error),
{
    if strict {
        Err(error)
    } else {
        Ok(None)
    }
}

proof fn lemma_texts_push(names: Seq<String>, name: String)
    ensures
        spec_texts(names.push(name)) == spec_texts(names).push(name@),
{
    assert(spec_texts(names.push(name)) =~= spec_texts(names).push(name@));
}

proof fn lemma_probe_views_take_next(probes: Seq<SubmoduleProbe>, i: int)
    requires
        0 <= i < probes.len(),
    ensures
        spec_probe_views(probes).take(i + 1).drop_last() == spec_probe_views(probes).take(i),
        spec_probe_views(probes).take(i + 1).last() == probes[i]@,
{
    assert(spec_probe_views(probes).take(i + 1).drop_last() =~= spec_probe_views(probes).take(i));
}

/// Decides how an inspection ends from what was learned of the repository.
///
/// A repository that could not be opened, submodules that could not be
/// listed and a status that could not be looked up end the inspection: with
/// the matching error in a strict run, without a diagnostic otherwise.
/// Else every named submodule is entered under each finding that its status
/// shows, and submodules without a name are passed over.
pub fn inspect(strict: bool, probe: &RepositoryProbe) -> (inspection: Result<
    Option<SubmodulesDiagnostic>,
    CheckError,
>)
    ensures
        spec_inspection_view(inspection) == spec_inspect(strict, probe@),
{
    match probe {
        RepositoryProbe::Unopenable => bail(strict, CheckError::RepoOpen),
        RepositoryProbe::Unlistable => bail(strict, CheckError::SubmoduleList),
        RepositoryProbe::Submodules(probes) => {
            let ghost views = spec_probe_views(probes@);
            let mut not_staged: Vec<String> = Vec::new();
            let mut staged: Vec<String> = Vec::new();
            let mut i: usize = 0;
            proof {
                assert(spec_texts(not_staged@) =~= spec_names(views.take(0), Bucket::NotStaged));
                assert(spec_texts(staged@) =~= spec_names(views.take(0), Bucket::Staged));
            }
            while i < probes.len()
                invariant
                    0 <= i <= probes.len(),
                    views == spec_probe_views(probes@),
                    probe@ == RepositoryProbeView::Submodules(views),
                    !spec_status_failed(views.take(i as int)),
                    spec_texts(not_staged@) == spec_names(views.take(i as int), Bucket::NotStaged),
                    spec_texts(staged@) == spec_names(views.take(i as int), Bucket::Staged),
                decreases probes.len() - i,
            {
                proof {
                    lemma_probe_views_take_next(probes@, i as int);
                }
                match &probes[i] {
                    SubmoduleProbe::Unnamed => {},
                    SubmoduleProbe::StatusUnavailable => {
                        assert(views[i as int] == probes@[i as int]@);
                        assert(views[i as int] is StatusUnavailable);
                        assert(spec_status_failed(views));
                        return bail(strict, CheckError::StatusQuery);
                    },
                    SubmoduleProbe::Status { name, wd_modified, index_modified } => {
                        if *wd_modified {
                            proof {
                                lemma_texts_push(not_staged@, *name);
                            }
                            not_staged.push(name.clone());
                        }
                        if *index_modified {
                            proof {
                                lemma_texts_push(staged@, *name);
                            }
                            staged.push(name.clone());
                        }
                    },
                }
                proof {
                    let next = views.take(i + 1);
                    if spec_status_failed(next) {
                        let j = choose|j: int|
                            0 <= j < next.len() && #[trigger] next[j] is StatusUnavailable;
                        if j < i {
                            assert(views.take(i as int)[j] is StatusUnavailable);
                        }
                    }
                }
                i += 1;
            }
            proof {
                assert(views.take(i as int) =~= views);
            }
            Ok(
                Some(
                    SubmodulesDiagnostic {
                        modified_not_staged_submodules: not_staged,
                        modified_staged_submodules: staged,
                    },
                ),
            )
        },
    }
}

/// Learns of one listed submodule: its name, and under that name its
/// status with every change reported.
fn probe_submodule(repo: &git2::Repository, submodule: &git2::Submodule<'_>) -> (probe:
    SubmoduleProbe) {
    match submodule_name(submodule) {
        Err(_) => SubmoduleProbe::Unnamed,
        Ok(name) => match submodule_status(repo, name.as_str()) {
            Err(_) => SubmoduleProbe::StatusUnavailable,
            Ok(status) => {
                let wd_modified = status_is_wd_modified(&status);
                let index_modified = status_is_index_modified(&status);
                SubmoduleProbe::Status { name, wd_modified, index_modified }
            },
        },
    }
}

/// Learns of the repository at `path` what an inspection needs: opens it,
/// lists its submodules and probes them in that order, up to the first
/// whose status cannot be looked up.
///
/// What is learned depends on the repository on disk, so nothing is known
/// of it beforehand but that probing stops at the first failure.
pub fn probe_repository(path: &PathBuf) -> (probe: RepositoryProbe)
    ensures
        probe@ matches RepositoryProbeView::Submodules(probes) ==> spec_stops_at_failure(probes),
{
    let repo = match open_repository(path) {
        Ok(repo) => repo,
        Err(_) => {
            return RepositoryProbe::Unopenable;
        },
    };
    let submodules = match list_submodules(&repo) {
        Ok(submodules) => submodules,
        Err(_) => {
            return RepositoryProbe::Unlistable;
        },
    };
    let mut probes: Vec<SubmoduleProbe> = Vec::new();
    let mut i: usize = 0;
    while i < submodules.len()
        invariant_except_break
            forall|j: int|
                0 <= j < probes.len() ==> !(#[trigger] spec_probe_views(probes@)[j]
                    is StatusUnavailable),
        ensures
            spec_stops_at_failure(spec_probe_views(probes@)),
        decreases submodules.len() - i,
    {
        let probe = probe_submodule(&repo, &submodules[i]);
        let failed = match probe {
            SubmoduleProbe::StatusUnavailable => true,
            _ => false,
        };
        let ghost before = spec_probe_views(probes@);
        probes.push(probe);
        proof {
            let after = spec_probe_views(probes@);
            assert forall|j: int| 0 <= j < probes.len() - 1 implies !(#[trigger] after[j]
                is StatusUnavailable) by {
                assert(after[j] == before[j]);
            }
        }
        if failed {
            break ;
        }
        i += 1;
    }
    RepositoryProbe::Submodules(probes)
}

/// Inspects the submodules of the repository at `path`.
///
/// The result is what `inspect` decides from what probing the repository
/// brought to light. In particular a run that is not strict never fails:
/// where the inspection cannot be completed it ends without a diagnostic.
pub fn check_submodules(strict: bool, path: &PathBuf) -> (inspection: Result<
    Option<SubmodulesDiagnostic>,
    CheckError,
>)
    ensures
        exists|probe: RepositoryProbeView| #[trigger]
            spec_inspect(strict, probe) == spec_inspection_view(inspection),
        !strict ==> inspection is Ok,
{
    let probe = probe_repository(path);
    let inspection = inspect(strict, &probe);
    proof {
        lemma_inspection_outcomes(strict, probe@);
    }
    inspection
}

/// An inspection gives a diagnostic exactly if it could be completed. An
/// incomplete one fails exactly if the run is strict, and else ends without
/// a diagnostic; so a run that is not strict never fails.
pub proof fn lemma_inspection_outcomes(strict: bool, probe: RepositoryProbeView)
    ensures
        spec_inspect(strict, probe) matches Ok(Some(_)) <==> !spec_incomplete(probe),
        spec_inspect(strict, probe) is Err <==> strict && spec_incomplete(probe),
        spec_inspect(strict, probe) == Ok::<Option<DiagnosticView>, CheckError>(None) <==> !strict
            && spec_incomplete(probe),
        probe is Unopenable && strict ==> spec_inspect(strict, probe) == Err::<
            Option<DiagnosticView>,
            CheckError,
        >(CheckError::RepoOpen),
        probe is Unlistable && strict ==> spec_inspect(strict, probe) == Err::<
            Option<DiagnosticView>,
            CheckError,
        >(CheckError::SubmoduleList),
{
}

/// A name is reported under a finding exactly if a probed submodule of
/// that name shows the finding. The two findings are thus decided apart:
/// a submodule may be reported under one, under both or under neither.
pub proof fn lemma_reported_iff_shown(
    probes: Seq<SubmoduleProbeView>,
    bucket: Bucket,
    name: Seq<char>,
)
    ensures
        spec_names(probes, bucket).contains(name) <==> exists|i: int|
            0 <= i < probes.len() && (#[trigger] probes[i]).shows(bucket) && probes[i]->name
                == name,
    decreases probes.len(),
{
    if probes.len() > 0 {
        let earlier = probes.drop_last();
        lemma_reported_iff_shown(earlier, bucket, name);
        let last = probes.last();
        if spec_names(probes, bucket).contains(name) {
            let names = spec_names(probes, bucket);
            let k = choose|k: int| 0 <= k < names.len() && names[k] == name;
            if last.shows(bucket) && k == names.len() - 1 {
                assert(probes[probes.len() - 1].shows(bucket));
            } else {
                assert(spec_names(earlier, bucket)[k] == name);
                let i = choose|i: int|
                    0 <= i < earlier.len() && (#[trigger] earlier[i]).shows(bucket)
                        && earlier[i]->name == name;
                assert(probes[i] == earlier[i]);
            }
        }
        if exists|i: int|
            0 <= i < probes.len() && (#[trigger] probes[i]).shows(bucket) && probes[i]->name
                == name {
            let i = choose|i: int|
                0 <= i < probes.len() && (#[trigger] probes[i]).shows(bucket) && probes[i]->name
                    == name;
            let names = spec_names(probes, bucket);
            if i == probes.len() - 1 {
                assert(names[names.len() - 1] == name);
            } else {
                assert(earlier[i] == probes[i]);
                let k = choose|k: int|
                    0 <= k < spec_names(earlier, bucket).len() && spec_names(earlier, bucket)[k]
                        == name;
                assert(names[k] == name);
            }
        }
    }
}

/// The names reported under a finding are the listing, narrowed to the
/// submodules that show the finding and reduced to their names: the order
/// of the listing is kept.
pub proof fn lemma_names_follow_the_listing(probes: Seq<SubmoduleProbeView>, bucket: Bucket)
    ensures
        spec_names(probes, bucket) == probes.filter(
            |probe: SubmoduleProbeView| probe.shows(bucket),
        ).map_values(|probe: SubmoduleProbeView| probe->name),
    decreases probes.len(),
{
    let shows = |probe: SubmoduleProbeView| probe.shows(bucket);
    let name_of = |probe: SubmoduleProbeView| probe->name;
    reveal(Seq::filter);
    if probes.len() > 0 {
        lemma_names_follow_the_listing(probes.drop_last(), bucket);
        let earlier = probes.drop_last().filter(shows);
        if probes.last().shows(bucket) {
            assert(earlier.push(probes.last()).map_values(name_of) =~= earlier.map_values(
                name_of,
            ).push(probes.last()->name));
        }
    } else {
        assert(probes.filter(shows).map_values(name_of) =~= Seq::<Seq<char>>::empty());
    }
}

/// Where no two probed submodules bear the same name, no name is reported
/// twice under one finding.
pub proof fn lemma_distinct_names_stay_distinct(probes: Seq<SubmoduleProbeView>, bucket: Bucket)
    requires
        forall|i: int, j: int|
            0 <= i < j < probes.len() && (#[trigger] probes[i]) is Status && (
            #[trigger] probes[j]) is Status ==> probes[i]->name != probes[j]->name,
    ensures
        spec_names(probes, bucket).no_duplicates(),
    decreases probes.len(),
{
    if probes.len() > 0 {
        let earlier = probes.drop_last();
        let last = probes.last();
        assert forall|i: int, j: int|
            0 <= i < j < earlier.len() && (#[trigger] earlier[i]) is Status && (
            #[trigger] earlier[j]) is Status implies earlier[i]->name != earlier[j]->name by {
            assert(earlier[i] == probes[i] && earlier[j] == probes[j]);
        }
        lemma_distinct_names_stay_distinct(earlier, bucket);
        if last.shows(bucket) {
            lemma_reported_iff_shown(earlier, bucket, last->name);
            if spec_names(earlier, bucket).contains(last->name) {
                let i = choose|i: int|
                    0 <= i < earlier.len() && (#[trigger] earlier[i]).shows(bucket)
                        && earlier[i]->name == last->name;
                assert(earlier[i] == probes[i]);
                assert(probes[probes.len() - 1] is Status);
            }
        }
    }
}

/// What is reported under one finding depends on that finding alone: two
/// listings that agree on which submodules show it, and on their names,
/// give the same names, whatever they say of the other finding.
pub proof fn lemma_findings_are_independent(
    probes: Seq<SubmoduleProbeView>,
    others: Seq<SubmoduleProbeView>,
    bucket: Bucket,
)
    requires
        probes.len() == others.len(),
        forall|i: int|
            0 <= i < probes.len() ==> (#[trigger] probes[i]).shows(bucket) == others[i].shows(
                bucket,
            ),
        forall|i: int|
            0 <= i < probes.len() && (#[trigger] probes[i]).shows(bucket) ==> probes[i]->name
                == others[i]->name,
    ensures
        spec_names(probes, bucket) == spec_names(others, bucket),
    decreases probes.len(),
{
    if probes.len() > 0 {
        let earlier = probes.drop_last();
        let other_earlier = others.drop_last();
        assert forall|i: int| 0 <= i < earlier.len() implies (#[trigger] earlier[i]).shows(bucket)
            == other_earlier[i].shows(bucket) && (earlier[i].shows(bucket) ==> earlier[i]->name
            == other_earlier[i]->name) by {
            assert(earlier[i] == probes[i] && other_earlier[i] == others[i]);
        }
        lemma_findings_are_independent(earlier, other_earlier, bucket);
        assert(probes[probes.len() - 1].shows(bucket) == others[probes.len() - 1].shows(bucket));
    }
}

/// A repository without submodules gives a diagnostic, and an empty one,
/// whether the run is strict or not.
pub proof fn lemma_no_submodules_gives_empty_diagnostic(strict: bool)
    ensures
        spec_inspect(strict, RepositoryProbeView::Submodules(Seq::empty())) == Ok::<
            Option<DiagnosticView>,
            CheckError,
        >(
            Some(
                DiagnosticView { modified_not_staged: Seq::empty(), modified_staged: Seq::empty() },
            ),
        ),
{
}

/// One submodule that is modified in the working tree and has nothing
/// staged is reported as not staged only; once its change is staged and the
/// working tree agrees with the index, it is reported as staged only.
pub proof fn lemma_staging_moves_the_report(name: Seq<char>)
    ensures
        spec_classify(
            seq![SubmoduleProbeView::Status { name, wd_modified: true, index_modified: false }],
        ) == (DiagnosticView { modified_not_staged: seq![name], modified_staged: Seq::empty() }),
        spec_classify(
            seq![SubmoduleProbeView::Status { name, wd_modified: false, index_modified: true }],
        ) == (DiagnosticView { modified_not_staged: Seq::empty(), modified_staged: seq![name] }),
        spec_classify(
            seq![SubmoduleProbeView::Status { name, wd_modified: true, index_modified: true }],
        ) == (DiagnosticView { modified_not_staged: seq![name], modified_staged: seq![name] }),
{
    lemma_names_of_one(
        SubmoduleProbeView::Status { name, wd_modified: true, index_modified: false },
        Bucket::NotStaged,
    );
    lemma_names_of_one(
        SubmoduleProbeView::Status { name, wd_modified: true, index_modified: false },
        Bucket::Staged,
    );
    lemma_names_of_one(
        SubmoduleProbeView::Status { name, wd_modified: false, index_modified: true },
        Bucket::NotStaged,
    );
    lemma_names_of_one(
        SubmoduleProbeView::Status { name, wd_modified: false, index_modified: true },
        Bucket::Staged,
    );
    lemma_names_of_one(
        SubmoduleProbeView::Status { name, wd_modified: true, index_modified: true },
        Bucket::NotStaged,
    );
    lemma_names_of_one(
        SubmoduleProbeView::Status { name, wd_modified: true, index_modified: true },
        Bucket::Staged,
    );
}

proof fn lemma_names_of_one(probe: SubmoduleProbeView, bucket: Bucket)
    ensures
        spec_names(seq![probe], bucket) == if probe.shows(bucket) {
            seq![probe->name]
        } else {
            Seq::empty()
        },
{
    reveal_with_fuel(spec_names, 2);
    assert(seq![probe].drop_last() =~= Seq::empty());
    assert(spec_names(seq![probe], bucket) =~= if probe.shows(bucket) {
        seq![probe->name]
    } else {
        Seq::empty()
    });
}

} // verus!
