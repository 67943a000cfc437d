//! The mover: where a file goes when its destination may be taken.
//!
//! A relocation is a dialogue. The mover names a path to probe, the caller
//! says whether a file occupies it, and so on until the mover names the
//! rename to carry out. Without leave to overwrite, the rename goes to the
//! first path that a probe found free.

use vstd::prelude::*;
use crate::error::{ErrorType, FsmError, FsmErrorView};
use crate::path::{
    extension, extension_of, file_name, file_name_of, join, join_paths, name_bounds, name_span,
    stem, stem_of,
};
use crate::text::{decimal, decimal_string, lemma_decimal_injective, to_chars};

verus! {

/// A request to move the file at `from_path` to `to_path`.
#[derive(Debug)]
pub struct DataMessage {
    pub from_path: String,
    pub to_path: String,
}

/// What a `DataMessage` holds.
pub ghost struct DataMessageView {
    pub from_path: Seq<char>,
    pub to_path: Seq<char>,
}

impl View for DataMessage {
    type V = DataMessageView;

    open spec fn view(&self) -> DataMessageView {
        DataMessageView { from_path: self.from_path@, to_path: self.to_path@ }
    }
}

/// The request that moves the file at `source` into the directory
/// `directory`, under the name that it has; none for a path without file
/// name.
pub open spec fn request_into(source: Seq<char>, directory: Seq<char>) -> Option<DataMessageView> {
    match file_name(source) {
        Some(name) => Some(DataMessageView { from_path: source, to_path: join(directory, name) }),
        None => None,
    }
}

impl DataMessage {
    /// The request that moves the file at `source_path` into
    /// `destination_dir`: the destination is the file's own name below that
    /// directory. A path without file name cannot be moved.
    pub fn into_directory(source_path: &str, destination_dir: &str) -> (request: Result<
        Self,
        FsmError,
    >)
        ensures
            match request {
                Ok(message) => request_into(source_path@, destination_dir@) == Some(message@),
                Err(error) => request_into(source_path@, destination_dir@) is None && error@
                    == no_candidate(),
            },
    {
        match file_name_of(source_path) {
            Some(name) => Ok(
                DataMessage {
                    from_path: String::from_str(source_path),
                    to_path: join_paths(destination_dir, name.as_str()),
                },
            ),
            None => Err(
                FsmError::new(
                    ErrorType::MoveFailed,
                    String::from_str("Could not obtain file name."),
                ),
            ),
        }
    }
}

/// What the mover asks of its caller next.
#[derive(Debug)]
pub enum MoveStep {
    /// Say whether a file occupies `path`, the candidate of number `attempt`
    /// (`None`: the destination itself).
    Probe { path: String, attempt: Option<u64> },
    /// Rename `from` to `to`.
    Rename { from: String, to: String },
}

/// What a `MoveStep` holds.
pub ghost enum MoveStepView {
    Probe { path: Seq<char>, attempt: Option<u64> },
    Rename { from: Seq<char>, to: Seq<char> },
}

impl View for MoveStep {
    type V = MoveStepView;

    open spec fn view(&self) -> MoveStepView {
        match self {
            MoveStep::Probe { path, attempt } => MoveStepView::Probe {
                path: path@,
                attempt: *attempt,
            },
            MoveStep::Rename { from, to } => MoveStepView::Rename { from: from@, to: to@ },
        }
    }
}

/// The extension of a file name with its dot, empty where the name has no
/// extension or an empty one.
pub open spec fn dotted_extension(name: Seq<char>) -> Seq<char> {
    match extension(name) {
        Some(ext) => if ext.len() == 0 {
            Seq::empty()
        } else {
            seq!['.'] + ext
        },
        None => Seq::empty(),
    }
}

/// The file name `name` with the number `n`: stem, underscore, numeral,
/// extension.
pub open spec fn numbered_name(name: Seq<char>, n: nat) -> Seq<char> {
    stem(name) + seq!['_'] + decimal(n) + dotted_extension(name)
}

/// The alternative of number `n` to the destination `target`: the same
/// directory, the file name numbered. None where `target` has no file name.
pub open spec fn alternative(target: Seq<char>, n: nat) -> Option<Seq<char>> {
    match name_span(target) {
        Some((from, to)) => Some(target.take(from) + numbered_name(target.subrange(from, to), n)),
        None => None,
    }
}

/// The candidate that a probe of number `attempt` asks about.
pub open spec fn candidate(target: Seq<char>, attempt: Option<u64>) -> Seq<char> {
    match attempt {
        Some(n) => match alternative(target, n as nat) {
            Some(path) => path,
            None => target,
        },
        None => target,
    }
}

/// The failure of a relocation that found no name to try.
pub open spec fn no_candidate() -> FsmErrorView {
    FsmErrorView { error_type: ErrorType::MoveFailed, message: "Could not obtain file name."@ }
}

/// The first step of a relocation: with leave to overwrite the rename itself,
/// else a probe of the destination.
pub open spec fn first_step(overwrite: bool, request: DataMessageView) -> MoveStepView {
    if overwrite {
        MoveStepView::Rename { from: request.from_path, to: request.to_path }
    } else {
        MoveStepView::Probe { path: request.to_path, attempt: None }
    }
}

/// The step that follows a probe of number `attempt`: the rename to the
/// probed path where it is free, else a probe of the next alternative.
pub open spec fn step_after_probe(
    request: DataMessageView,
    attempt: Option<u64>,
    occupied: bool,
) -> Result<MoveStepView, FsmErrorView> {
    if !occupied {
        Ok(MoveStepView::Rename { from: request.from_path, to: candidate(request.to_path, attempt) })
    } else {
        let next: nat = match attempt {
            Some(n) => (n + 1) as nat,
            None => 0,
        };
        if next > u64::MAX {
            Err(no_candidate())
        } else {
            match alternative(request.to_path, next) {
                Some(path) => Ok(MoveStepView::Probe { path, attempt: Some(next as u64) }),
                None => Err(no_candidate()),
            }
        }
    }
}

/// `path` is where a relocation to `target` lands when the paths of `taken`
/// are occupied and overwriting is not allowed: `target` where it is free,
/// else the alternative of lowest number that is free.
pub open spec fn lands_at(target: Seq<char>, taken: Set<Seq<char>>, path: Seq<char>) -> bool {
    if !taken.contains(target) {
        path == target
    } else {
        exists|n: nat|
            {
                &&& #[trigger] alternative(target, n) == Some(path)
                &&& !taken.contains(path)
                &&& forall|m: nat|
                    m < n ==> ((#[trigger] alternative(target, m)) matches Some(earlier)
                        && taken.contains(earlier))
            }
    }
}

/// `finals` are the paths at which relocations to one `target` land, one
/// after the other, when `taken` is occupied at first and each landing
/// occupies its path.
pub open spec fn land_in_turn(target: Seq<char>, taken: Set<Seq<char>>, finals: Seq<Seq<char>>) -> bool {
    forall|i: int|
        0 <= i < finals.len() ==> lands_at(
            target,
            taken.union(finals.take(i).to_set()),
            #[trigger] finals[i],
        )
}

/// A relocation without leave to overwrite never lands on an occupied path.
pub proof fn lemma_landing_is_free(target: Seq<char>, taken: Set<Seq<char>>, path: Seq<char>)
    requires
        lands_at(target, taken, path),
    ensures
        !taken.contains(path),
{
}

/// Relocations of files with one and the same destination, one after the
/// other and without leave to overwrite, land on paths that were free at
/// first and differ from each other: as many files, as many names.
pub proof fn lemma_landings_are_distinct(
    target: Seq<char>,
    taken: Set<Seq<char>>,
    finals: Seq<Seq<char>>,
)
    requires
        land_in_turn(target, taken, finals),
    ensures
        forall|i: int| 0 <= i < finals.len() ==> !taken.contains(#[trigger] finals[i]),
        forall|i: int, j: int| 0 <= i < j < finals.len() ==> finals[i] != finals[j],
{
    assert forall|i: int| 0 <= i < finals.len() implies !taken.contains(#[trigger] finals[i]) by {
        lemma_landing_is_free(target, taken.union(finals.take(i).to_set()), finals[i]);
    }
    assert forall|i: int, j: int| 0 <= i < j < finals.len() implies finals[i] != finals[j] by {
        lemma_landing_is_free(target, taken.union(finals.take(j).to_set()), finals[j]);
        assert(finals.take(j)[i] == finals[i]);
        assert(finals.take(j).to_set().contains(finals[i]));
    }
}

/// Alternatives of different numbers differ: the names that the mover tries
/// never repeat.
pub proof fn lemma_alternatives_differ(target: Seq<char>, m: nat, n: nat)
    requires
        alternative(target, m) is Some,
        alternative(target, m) == alternative(target, n),
    ensures
        m == n,
{
    let (from, to) = name_span(target)->0;
    let name = target.subrange(from, to);
    let head = target.take(from) + stem(name) + seq!['_'];
    let tail = dotted_extension(name);
    let a = alternative(target, m)->0;
    let b = alternative(target, n)->0;
    assert(a =~= head + decimal(m) + tail);
    assert(b =~= head + decimal(n) + tail);
    assert(decimal(m).len() == decimal(n).len()) by {
        assert(a.len() == head.len() + decimal(m).len() + tail.len());
        assert(b.len() == head.len() + decimal(n).len() + tail.len());
    }
    assert forall|i: int| 0 <= i < decimal(m).len() implies decimal(m)[i] == decimal(n)[i] by {
        assert((head + decimal(m) + tail)[head.len() + i] == decimal(m)[i]);
        assert((head + decimal(n) + tail)[head.len() + i] == decimal(n)[i]);
    }
    assert(decimal(m) =~= decimal(n));
    lemma_decimal_injective(m, n);
}

/// Where the dialogue that stands at `step` ends when the paths of `taken`
/// are the occupied ones and the caller answers at most `probes` probes: the
/// path of the rename, or the failure; `None` where more probes are needed.
pub open spec fn outcome(
    request: DataMessageView,
    taken: Set<Seq<char>>,
    step: MoveStepView,
    probes: nat,
) -> Option<Result<Seq<char>, FsmErrorView>>
    decreases probes,
{
    match step {
        MoveStepView::Rename { from, to } => Some(Ok(to)),
        MoveStepView::Probe { path, attempt } => if probes == 0 {
            None
        } else {
            match step_after_probe(request, attempt, taken.contains(path)) {
                Ok(next) => outcome(request, taken, next, (probes - 1) as nat),
                Err(error) => Some(Err(error)),
            }
        },
    }
}

/// A mover with leave to overwrite renames to the destination, whatever is
/// there.
pub proof fn lemma_overwriting_mover_keeps_the_name(
    request: DataMessageView,
    taken: Set<Seq<char>>,
    probes: nat,
)
    ensures
        outcome(request, taken, first_step(true, request), probes) == Some(
            Ok::<Seq<char>, FsmErrorView>(request.to_path),
        ),
{
}

/// A mover without leave to overwrite never renames onto an occupied path:
/// where its dialogue ends in a rename, the file lands on the destination if
/// that is free, else on the free alternative of lowest number.
pub proof fn lemma_careful_mover_lands_on_a_free_path(
    request: DataMessageView,
    taken: Set<Seq<char>>,
    probes: nat,
    path: Seq<char>,
)
    requires
        outcome(request, taken, first_step(false, request), probes) == Some(
            Ok::<Seq<char>, FsmErrorView>(path),
        ),
    ensures
        lands_at(request.to_path, taken, path),
        !taken.contains(path),
{
    let target = request.to_path;
    if taken.contains(target) {
        assert(probes > 0);
        match alternative(target, 0) {
            Some(first) => {
                lemma_outcome_from(request, taken, 0, (probes - 1) as nat, path);
            },
            None => {},
        }
    } else {
        reveal_with_fuel(outcome, 2);
    }
}

proof fn lemma_outcome_from(
    request: DataMessageView,
    taken: Set<Seq<char>>,
    n: nat,
    probes: nat,
    path: Seq<char>,
)
    requires
        n <= u64::MAX,
        taken.contains(request.to_path),
        alternative(request.to_path, n) is Some,
        forall|m: nat|
            m < n ==> ((#[trigger] alternative(request.to_path, m)) matches Some(earlier)
                && taken.contains(earlier)),
        outcome(
            request,
            taken,
            MoveStepView::Probe {
                path: alternative(request.to_path, n)->0,
                attempt: Some(n as u64),
            },
            probes,
        ) == Some(Ok::<Seq<char>, FsmErrorView>(path)),
    ensures
        lands_at(request.to_path, taken, path),
    decreases probes,
{
    let target = request.to_path;
    let probed = alternative(target, n)->0;
    assert(candidate(target, Some(n as u64)) == probed);
    if !taken.contains(probed) {
        reveal_with_fuel(outcome, 2);
        assert(path == probed);
        assert(alternative(target, n) == Some(path));
    } else {
        if n + 1 <= u64::MAX {
            assert(alternative(target, n + 1) is Some);
            assert forall|m: nat| m < n + 1 implies ((#[trigger] alternative(target, m)) matches Some(
                earlier,
            ) && taken.contains(earlier)) by {
                if m == n {
                } else {
                    assert(m < n);
                }
            }
            lemma_outcome_from(request, taken, n + 1, (probes - 1) as nat, path);
        }
    }
}

/// Whether `path` is none of the alternatives to `target` below number `n`.
pub open spec fn untried(target: Seq<char>, n: nat, path: Seq<char>) -> bool {
    forall|m: nat| m < n ==> #[trigger] alternative(target, m) != Some(path)
}

/// A relocation ends: where finitely many paths are occupied, the dialogue
/// of a mover without leave to overwrite comes to its rename, or to its
/// failure, after no more probes than there are occupied paths, and two.
pub proof fn lemma_relocation_ends(request: DataMessageView, taken: Set<Seq<char>>)
    requires
        taken.finite(),
    ensures
        outcome(request, taken, first_step(false, request), taken.len() + 2) is Some,
{
    let target = request.to_path;
    reveal_with_fuel(outcome, 2);
    if taken.contains(target) {
        match alternative(target, 0) {
            Some(first) => {
                assert forall|x: Seq<char>| taken.contains(x) && untried(target, 0, x) implies taken.contains(
                    x,
                ) by {}
                lemma_ends_from(request, taken, taken, 0, taken.len() + 1);
            },
            None => {},
        }
    }
}

proof fn lemma_ends_from(
    request: DataMessageView,
    taken: Set<Seq<char>>,
    rest: Set<Seq<char>>,
    n: nat,
    probes: nat,
)
    requires
        n <= u64::MAX,
        alternative(request.to_path, n) is Some,
        rest.finite(),
        probes > rest.len(),
        forall|x: Seq<char>|
            taken.contains(x) && untried(request.to_path, n, x) ==> #[trigger] rest.contains(x),
    ensures
        outcome(
            request,
            taken,
            MoveStepView::Probe {
                path: alternative(request.to_path, n)->0,
                attempt: Some(n as u64),
            },
            probes,
        ) is Some,
        n + rest.len() <= u64::MAX ==> outcome(
            request,
            taken,
            MoveStepView::Probe {
                path: alternative(request.to_path, n)->0,
                attempt: Some(n as u64),
            },
            probes,
        )->0 is Ok,
    decreases probes,
{
    let target = request.to_path;
    let probed = alternative(target, n)->0;
    reveal_with_fuel(outcome, 2);
    if taken.contains(probed) {
        assert(untried(target, n, probed)) by {
            assert forall|m: nat| m < n implies #[trigger] alternative(target, m) != Some(
                probed,
            ) by {
                if alternative(target, m) == Some(probed) {
                    lemma_alternatives_differ(target, m, n);
                }
            }
        }
        assert(rest.contains(probed));
        assert(rest.len() >= 1);
    }
    if taken.contains(probed) && n + 1 <= u64::MAX {
        let fewer = rest.remove(probed);
        assert(alternative(target, n + 1) is Some);
        assert forall|x: Seq<char>| taken.contains(x) && untried(target, n + 1, x) implies #[trigger] fewer.contains(
            x,
        ) by {
            assert(alternative(target, n) != Some(x));
            assert(untried(target, n, x)) by {
                assert forall|m: nat| m < n implies #[trigger] alternative(target, m) != Some(
                    x,
                ) by {
                    assert(m < n + 1);
                }
            }
            assert(rest.contains(x));
        }
        lemma_ends_from(request, taken, fewer, n + 1, (probes - 1) as nat);
    }
}

/// The path on which the relocation that `request` asks for lands when the
/// paths of `taken` are occupied and overwriting is not allowed; none where
/// the relocation fails.
pub open spec fn landing(request: DataMessageView, taken: Set<Seq<char>>) -> Option<Seq<char>> {
    match outcome(request, taken, first_step(false, request), taken.len() + 2) {
        Some(Ok(path)) => Some(path),
        _ => None,
    }
}

/// A relocation succeeds: where the destination has a file name and no more
/// paths are occupied than there are numbers, the dialogue of a mover without
/// leave to overwrite comes to its rename, and the rename goes to a free
/// path: the destination, or its free alternative of lowest number.
pub proof fn lemma_relocation_succeeds(request: DataMessageView, taken: Set<Seq<char>>)
    requires
        taken.finite(),
        taken.len() <= u64::MAX,
        file_name(request.to_path) is Some,
    ensures
        landing(request, taken) is Some,
        lands_at(request.to_path, taken, landing(request, taken)->0),
        !taken.contains(landing(request, taken)->0),
{
    let target = request.to_path;
    reveal_with_fuel(outcome, 2);
    if taken.contains(target) {
        assert(alternative(target, 0) is Some);
        assert forall|x: Seq<char>| taken.contains(x) && untried(target, 0, x) implies taken.contains(
            x,
        ) by {}
        lemma_ends_from(request, taken, taken, 0, taken.len() + 1);
    }
    let path = outcome(request, taken, first_step(false, request), taken.len() + 2)->0->Ok_0;
    lemma_careful_mover_lands_on_a_free_path(request, taken, taken.len() + 2, path);
}

/// The paths on which the relocations that `requests` ask for land when they
/// are carried out one after the other, `taken` is occupied at first and
/// each landing occupies its path.
pub open spec fn landings(requests: Seq<DataMessageView>, taken: Set<Seq<char>>) -> Seq<
    Seq<char>,
>
    decreases requests.len(),
{
    if requests.len() == 0 {
        Seq::empty()
    } else {
        let before = landings(requests.drop_last(), taken);
        match landing(requests.last(), taken.union(before.to_set())) {
            Some(path) => before.push(path),
            None => before,
        }
    }
}

/// As many files, as many names: relocations to one and the same
/// destination, one after the other and without leave to overwrite, all come
/// to their rename, and they land on paths that were free at first and
/// differ from each other.
pub proof fn lemma_colliding_relocations_all_land(
    requests: Seq<DataMessageView>,
    target: Seq<char>,
    taken: Set<Seq<char>>,
)
    requires
        taken.finite(),
        taken.len() + requests.len() <= u64::MAX,
        file_name(target) is Some,
        forall|i: int| 0 <= i < requests.len() ==> (#[trigger] requests[i]).to_path == target,
    ensures
        landings(requests, taken).len() == requests.len(),
        land_in_turn(target, taken, landings(requests, taken)),
        forall|i: int|
            0 <= i < requests.len() ==> !taken.contains(#[trigger] landings(requests, taken)[i]),
        forall|i: int, j: int|
            0 <= i < j < requests.len() ==> landings(requests, taken)[i] != landings(
                requests,
                taken,
            )[j],
    decreases requests.len(),
{
    broadcast use vstd::seq_lib::seq_to_set_is_finite;
    broadcast use vstd::set::axiom_set_union_finite;

    if requests.len() > 0 {
        let earlier = requests.drop_last();
        let before = landings(earlier, taken);
        assert forall|i: int| 0 <= i < earlier.len() implies (#[trigger] earlier[i]).to_path
            == target by {
            assert(earlier[i] == requests[i]);
        }
        lemma_colliding_relocations_all_land(earlier, target, taken);
        let now = taken.union(before.to_set());
        before.lemma_cardinality_of_set();
        vstd::set_lib::lemma_len_union(taken, before.to_set());
        lemma_relocation_succeeds(requests.last(), now);
        let finals = landings(requests, taken);
        assert(finals == before.push(landing(requests.last(), now)->0));
        assert forall|i: int| 0 <= i < finals.len() implies lands_at(
            target,
            taken.union(finals.take(i).to_set()),
            #[trigger] finals[i],
        ) by {
            if i < before.len() {
                assert(finals.take(i) =~= before.take(i));
                assert(finals[i] == before[i]);
            } else {
                assert(finals.take(i) =~= before);
            }
        }
    }
    lemma_landings_are_distinct(target, taken, landings(requests, taken));
}

/// The file name `name` with the number `n` before its extension.
pub fn numbered_name_of(name: &str, n: u64) -> (numbered: String)
    ensures
        numbered@ == numbered_name(name@, n as nat),
{
    let mut numbered = stem_of(name);
    proof {
        reveal_strlit("_");
        reveal_strlit(".");
    }
    numbered.append("_");
    assert("_"@ =~= seq!['_']);
    numbered.append(decimal_string(n).as_str());
    match extension_of(name) {
        Some(ext) => {
            if ext.as_str().unicode_len() > 0 {
                numbered.append(".");
                numbered.append(ext.as_str());
                assert("."@ =~= seq!['.']);
                assert(numbered@ =~= numbered_name(name@, n as nat));
            } else {
                assert(numbered@ =~= numbered_name(name@, n as nat));
            }
        },
        None => {
            assert(numbered@ =~= numbered_name(name@, n as nat));
        },
    }
    numbered
}

/// The alternative of number `n` to the destination `target`.
pub fn alternative_of(target: &str, n: u64) -> (path: Option<String>)
    ensures
        match path {
            Some(text) => alternative(target@, n as nat) == Some(text@),
            None => alternative(target@, n as nat) is None,
        },
{
    let chars = to_chars(target);
    match name_bounds(&chars) {
        Some((from, to)) => {
            let name = target.substring_char(from, to);
            let mut path = String::from_str(target.substring_char(0, from));
            path.append(numbered_name_of(name, n).as_str());
            assert(target@.subrange(0, from as int) =~= target@.take(from as int));
            Some(path)
        },
        None => None,
    }
}

/// The mover. It knows whether a move may replace a file.
#[derive(Debug)]
pub struct FileWriter {
    overwrite_on_move: bool,
}

impl FileWriter {
    /// Whether a move may replace a file.
    pub closed spec fn overwrites(&self) -> bool {
        self.overwrite_on_move
    }

    /// A mover that may replace files, or may not.
    pub fn new(overwrite_on_move: bool) -> (writer: Self)
        ensures
            writer.overwrites() == overwrite_on_move,
    {
        Self { overwrite_on_move }
    }

    /// Whether a move may replace a file.
    pub fn do_overwrite_on_move(&self) -> (overwrite: bool)
        ensures
            overwrite == self.overwrites(),
    {
        self.overwrite_on_move
    }

    /// The first step of the relocation that `message` asks for.
    pub fn begin(&self, message: &DataMessage) -> (step: MoveStep)
        ensures
            step@ == first_step(self.overwrites(), message@),
    {
        if self.overwrite_on_move {
            MoveStep::Rename { from: message.from_path.clone(), to: message.to_path.clone() }
        } else {
            MoveStep::Probe { path: message.to_path.clone(), attempt: None }
        }
    }

    /// The step that follows the probe of number `attempt`, which found its
    /// path occupied or not. It fails with `MoveFailed` where the path is
    /// occupied and there is no further name to try: the destination has no
    /// file name, or the numbers are used up.
    pub fn after_probe(&self, message: &DataMessage, attempt: Option<u64>, occupied: bool) -> (next:
        Result<MoveStep, FsmError>)
        ensures
            match next {
                Ok(step) => step_after_probe(message@, attempt, occupied) == Ok::<
                    MoveStepView,
                    FsmErrorView,
                >(step@),
                Err(error) => step_after_probe(message@, attempt, occupied) == Err::<
                    MoveStepView,
                    FsmErrorView,
                >(error@),
            },
    {
        if !occupied {
            let to = match attempt {
                Some(n) => match alternative_of(message.to_path.as_str(), n) {
                    Some(path) => path,
                    None => message.to_path.clone(),
                },
                None => message.to_path.clone(),
            };
            return Ok(MoveStep::Rename { from: message.from_path.clone(), to });
        }
        let next: u64 = match attempt {
            Some(n) => {
                if n == u64::MAX {
                    return Err(
                        FsmError::new(
                            ErrorType::MoveFailed,
                            String::from_str("Could not obtain file name."),
                        ),
                    );
                }
                n + 1
            },
            None => 0,
        };
        match alternative_of(message.to_path.as_str(), next) {
            Some(path) => Ok(MoveStep::Probe { path, attempt: Some(next) }),
            None => Err(
                FsmError::new(
                    ErrorType::MoveFailed,
                    String::from_str("Could not obtain file name."),
                ),
            ),
        }
    }

    /// The end of a relocation: the path that the file is at now, or
    /// `MoveFailed` with the cause for which the rename to `to` failed.
    pub fn finish(&self, to: String, renamed: Result<(), String>) -> (moved: Result<
        String,
        FsmError,
    >)
        ensures
            match renamed {
                Ok(_) => moved matches Ok(path) && path@ == to@,
                Err(cause) => moved matches Err(error) && error@ == (FsmErrorView {
                    error_type: ErrorType::MoveFailed,
                    message: cause@,
                }),
            },
    {
        match renamed {
            Ok(_) => Ok(to),
            Err(cause) => Err(FsmError::new(ErrorType::MoveFailed, cause)),
        }
    }
}

} // verus!
