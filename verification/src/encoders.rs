//! Video encoders: which there are, which are tried, and what became of each.

use crate::sources::{option_views, OptionView, PropertyOption};
use crate::text::{joined, join_lines, joined_lines, same_text, texts};
use vstd::prelude::*;

verus! {

/// A video encoder that can be tried.
#[derive(Clone, Copy, Debug)]
pub struct EncoderCandidate {
    pub id: &'static str,
    pub label: &'static str,
}

/// What an [`EncoderCandidate`] holds.
#[verifier::ext_equal]
pub struct CandidateView {
    pub id: Seq<char>,
    pub label: Seq<char>,
}

impl View for EncoderCandidate {
    type V = CandidateView;

    open spec fn view(&self) -> CandidateView {
        CandidateView { id: self.id@, label: self.label@ }
    }
}

/// What a list of candidates holds.
pub open spec fn candidate_views(list: Seq<EncoderCandidate>) -> Seq<CandidateView> {
    list.map_values(|c: EncoderCandidate| c@)
}

/// The encoders in order of preference: the hardware ones by vendor, and the
/// software one, which works everywhere, last.
pub open spec fn all_encoders() -> Seq<CandidateView> {
    seq![
        CandidateView { id: "obs_nvenc_h264_tex"@, label: "NVIDIA NVENC"@ },
        CandidateView { id: "h264_texture_amf"@, label: "AMD AMF"@ },
        CandidateView { id: "obs_qsv11_v2"@, label: "Intel QuickSync"@ },
        CandidateView { id: "obs_x264"@, label: "Software (x264)"@ },
    ]
}

/// The encoders in order of preference.
pub fn video_encoder_candidates() -> (r: Vec<EncoderCandidate>)
    ensures
        candidate_views(r@) == all_encoders(),
{
    let mut list: Vec<EncoderCandidate> = Vec::new();
    list.push(EncoderCandidate { id: "obs_nvenc_h264_tex", label: "NVIDIA NVENC" });
    list.push(EncoderCandidate { id: "h264_texture_amf", label: "AMD AMF" });
    list.push(EncoderCandidate { id: "obs_qsv11_v2", label: "Intel QuickSync" });
    list.push(EncoderCandidate { id: "obs_x264", label: "Software (x264)" });
    assert(candidate_views(list@) =~= all_encoders());
    list
}

/// The candidates that the choice leaves: the chosen one alone, or all of them
/// where it names none.
pub open spec fn chosen_from(list: Seq<CandidateView>, choice: Seq<char>) -> Seq<CandidateView> {
    if exists|i: int| 0 <= i < list.len() && (#[trigger] list[i]).id == choice {
        seq![list[choose|i: int| 0 <= i < list.len() && (#[trigger] list[i]).id == choice]]
    } else {
        list
    }
}

/// The candidates that the engine has, in their order.
pub open spec fn registered_among(list: Seq<CandidateView>, ids: Seq<Seq<char>>) -> Seq<
    CandidateView,
>
    decreases list.len(),
{
    if list.len() == 0 {
        seq![]
    } else {
        let before = registered_among(list.drop_last(), ids);
        if ids.contains(list.last().id) {
            before.push(list.last())
        } else {
            before
        }
    }
}

/// The encoders that a start tries, in this order.
pub open spec fn encoders_to_try(choice: Seq<char>, ids: Seq<Seq<char>>) -> Seq<CandidateView> {
    registered_among(chosen_from(all_encoders(), choice), ids)
}

fn is_listed(ids: &Vec<String>, id: &str) -> (r: bool)
    ensures
        r == texts(ids@).contains(id@),
{
    let mut i: usize = 0;
    while i < ids.len()
        invariant
            i <= ids.len(),
            forall|k: int| 0 <= k < i ==> texts(ids@)[k] != id@,
        decreases ids.len() - i,
    {
        if same_text(ids[i].as_str(), id) {
            assert(texts(ids@)[i as int] == id@);
            return true;
        }
        i = i + 1;
    }
    false
}

/// No two encoders have the same identifier.
proof fn lemma_encoder_ids_differ()
    ensures
        forall|i: int, j: int|
            0 <= i < j < all_encoders().len() ==> (#[trigger] all_encoders()[i]).id != (
            #[trigger] all_encoders()[j]).id,
{
    reveal_strlit("obs_nvenc_h264_tex");
    reveal_strlit("h264_texture_amf");
    reveal_strlit("obs_qsv11_v2");
    reveal_strlit("obs_x264");
    let e = all_encoders();
    assert(e[0].id.len() == 18);
    assert(e[1].id.len() == 16);
    assert(e[2].id.len() == 12);
    assert(e[3].id.len() == 8);
}

fn keep_registered(list: &Vec<EncoderCandidate>, ids: &Vec<String>) -> (r: Vec<EncoderCandidate>)
    ensures
        candidate_views(r@) == registered_among(candidate_views(list@), texts(ids@)),
{
    let mut kept: Vec<EncoderCandidate> = Vec::new();
    let mut i: usize = 0;
    let ghost all = candidate_views(list@);
    assert(candidate_views(kept@) =~= registered_among(all.take(0), texts(ids@)));
    while i < list.len()
        invariant
            i <= list.len(),
            all == candidate_views(list@),
            candidate_views(kept@) == registered_among(all.take(i as int), texts(ids@)),
        decreases list.len() - i,
    {
        let ghost before = kept@;
        assert(all.take(i + 1).drop_last() =~= all.take(i as int));
        if is_listed(ids, list[i].id) {
            kept.push(list[i]);
            assert(candidate_views(kept@) =~= candidate_views(before).push(list@[i as int]@));
        }
        i = i + 1;
    }
    assert(all.take(i as int) =~= all);
    kept
}

fn choose_candidates(choice: &str) -> (r: Vec<EncoderCandidate>)
    ensures
        candidate_views(r@) == chosen_from(all_encoders(), choice@),
{
    proof {
        lemma_encoder_ids_differ();
    }
    let list = video_encoder_candidates();
    let ghost all = candidate_views(list@);
    let mut i: usize = 0;
    while i < list.len()
        invariant
            i <= list.len(),
            all == candidate_views(list@),
            all == all_encoders(),
            forall|a: int, b: int|
                0 <= a < b < all_encoders().len() ==> (#[trigger] all_encoders()[a]).id != (
                #[trigger] all_encoders()[b]).id,
            forall|k: int| 0 <= k < i ==> (#[trigger] all[k]).id != choice@,
        decreases list.len() - i,
    {
        if same_text(list[i].id, choice) {
            let mut one: Vec<EncoderCandidate> = Vec::new();
            one.push(list[i]);
            proof {
                assert(all[i as int].id == choice@);
                let k = choose|k: int| 0 <= k < all.len() && (#[trigger] all[k]).id == choice@;
                assert(k == i);
                assert(candidate_views(one@) =~= seq![all[k]]);
            }
            return one;
        }
        assert(all[i as int].id != choice@);
        i = i + 1;
    }
    list
}

/// The choices of encoder that the window offers: automatic, and every encoder
/// that the engine has.
pub open spec fn encoder_choices(ids: Seq<Seq<char>>) -> Seq<OptionView> {
    seq![OptionView { name: "Automatico (recomendado)"@, value: "auto"@ }] + registered_among(
        all_encoders(),
        ids,
    ).map_values(|c: CandidateView| OptionView { name: c.label, value: c.id })
}

/// Lists the choices of encoder.
pub fn list_video_encoders(registered: &Vec<String>) -> (r: Vec<PropertyOption>)
    ensures
        option_views(r@) == encoder_choices(texts(registered@)),
{
    let kept = keep_registered(&video_encoder_candidates(), registered);
    let mut list: Vec<PropertyOption> = Vec::new();
    list.push(
        PropertyOption { name: "Automatico (recomendado)".to_owned(), value: "auto".to_owned() },
    );
    let ghost all = encoder_choices(texts(registered@));
    let mut i: usize = 0;
    assert(option_views(list@) =~= all.take(1));
    while i < kept.len()
        invariant
            i <= kept.len(),
            candidate_views(kept@) == registered_among(all_encoders(), texts(registered@)),
            all == encoder_choices(texts(registered@)),
            option_views(list@) =~= all.take(i + 1),
        decreases kept.len() - i,
    {
        let ghost before = list@;
        list.push(
            PropertyOption { name: kept[i].label.to_owned(), value: kept[i].id.to_owned() },
        );
        proof {
            assert(candidate_views(kept@)[i as int] == kept@[i as int]@);
            assert(all[i + 1] == list@.last()@);
            assert(option_views(list@) =~= option_views(before).push(list@.last()@));
        }
        i = i + 1;
    }
    assert(all.take(i + 1) =~= all);
    list
}

/// The search for an encoder that works. Only starting the recording tells
/// whether one does.
pub struct EncoderSearch {
    candidates: Vec<EncoderCandidate>,
    failures: Vec<String>,
}

/// What an [`EncoderSearch`] holds: the encoders to try, and what went wrong
/// with those tried so far.
#[verifier::ext_equal]
pub struct SearchView {
    pub candidates: Seq<CandidateView>,
    pub failures: Seq<Seq<char>>,
}

impl View for EncoderSearch {
    type V = SearchView;

    closed spec fn view(&self) -> SearchView {
        SearchView {
            candidates: candidate_views(self.candidates@),
            failures: texts(self.failures@),
        }
    }
}

impl SearchView {
    /// No more encoders have failed than there are.
    pub open spec fn wf(self) -> bool {
        self.failures.len() <= self.candidates.len()
    }

    /// The encoder to try next.
    pub open spec fn next(self) -> CandidateView {
        self.candidates[self.failures.len() as int]
    }

    /// Every encoder has failed.
    pub open spec fn exhausted(self) -> bool {
        self.failures.len() == self.candidates.len()
    }
}

/// What went wrong with an encoder.
pub open spec fn attempt_failure(c: CandidateView, reason: Seq<char>) -> Seq<char> {
    c.label + " ("@ + c.id + "): "@ + reason
}

/// The message where no encoder works: one line for each that was tried.
pub open spec fn search_failure(failures: Seq<Seq<char>>) -> Seq<char> {
    "No se pudo iniciar la grabacion con ningun codificador de video disponible:\n"@ + joined_lines(
        failures,
    )
}

/// Why the recording did not start with an encoder, where the engine says so.
pub open spec fn start_refusal(reason: Option<String>) -> Seq<char> {
    match reason {
        Some(e) => e@,
        None => "razon desconocida (probablemente el hardware no soporta este codificador)"@,
    }
}

impl EncoderSearch {
    /// Begins a search among the encoders that the choice leaves and the
    /// engine has.
    pub fn new(choice: &str, registered: &Vec<String>) -> (r: Self)
        ensures
            r@.candidates == encoders_to_try(choice@, texts(registered@)),
            r@.failures.len() == 0,
            r@.wf(),
    {
        let candidates = keep_registered(&choose_candidates(choice), registered);
        EncoderSearch { candidates, failures: Vec::new() }
    }

    /// A search that has nothing to try.
    pub fn none() -> (r: Self)
        ensures
            r@.candidates.len() == 0,
            r@.failures.len() == 0,
            r@.wf(),
    {
        EncoderSearch { candidates: Vec::new(), failures: Vec::new() }
    }

    /// The encoder to try next; none where all have failed.
    pub fn current(&self) -> (r: Option<EncoderCandidate>)
        requires
            self@.wf(),
        ensures
            r is None <==> self@.exhausted(),
            r matches Some(c) ==> c@ == self@.next(),
    {
        if self.failures.len() < self.candidates.len() {
            assert(candidate_views(self.candidates@)[self.failures@.len() as int]
                == self.candidates@[self.failures@.len() as int]@);
            Some(self.candidates[self.failures.len()])
        } else {
            None
        }
    }

    fn push_failure(&mut self, reason: &str)
        requires
            old(self)@.wf(),
            !old(self)@.exhausted(),
        ensures
            final(self)@ == (SearchView {
                failures: old(self)@.failures.push(attempt_failure(old(self)@.next(), reason@)),
                ..old(self)@
            }),
            final(self)@.wf(),
    {
        let c = self.candidates[self.failures.len()];
        assert(candidate_views(self.candidates@)[self.failures@.len() as int] == c@);
        let mut message = joined(c.label, " (");
        message.append(c.id);
        message.append("): ");
        message.append(reason);
        let ghost before = self.failures@;
        self.failures.push(message);
        assert(texts(self.failures@) =~= texts(before).push(message@));
    }

    /// The engine did not make the encoder.
    pub fn not_created(&mut self)
        requires
            old(self)@.wf(),
            !old(self)@.exhausted(),
        ensures
            final(self)@ == (SearchView {
                failures: old(self)@.failures.push(
                    attempt_failure(
                        old(self)@.next(),
                        "obs_video_encoder_create devolvio null"@,
                    ),
                ),
                ..old(self)@
            }),
            final(self)@.wf(),
    {
        self.push_failure("obs_video_encoder_create devolvio null");
    }

    /// The recording did not start with the encoder, for the reason that the
    /// engine gave, where it gave one.
    pub fn not_started(&mut self, reason: Option<String>)
        requires
            old(self)@.wf(),
            !old(self)@.exhausted(),
        ensures
            final(self)@ == (SearchView {
                failures: old(self)@.failures.push(
                    attempt_failure(old(self)@.next(), start_refusal(reason)),
                ),
                ..old(self)@
            }),
            final(self)@.wf(),
    {
        match reason {
            Some(e) => self.push_failure(e.as_str()),
            None => self.push_failure(
                "razon desconocida (probablemente el hardware no soporta este codificador)",
            ),
        }
    }

    /// The message where no encoder works.
    pub fn failure(&self) -> (r: String)
        ensures
            r@ == search_failure(self@.failures),
    {
        joined(
            "No se pudo iniciar la grabacion con ningun codificador de video disponible:\n",
            join_lines(&self.failures).as_str(),
        )
    }
}

/// The identifiers of encoders, from what the engine reports; a missing one is
/// left out.
pub open spec fn present(reported: Seq<Option<String>>) -> Seq<Seq<char>>
    decreases reported.len(),
{
    if reported.len() == 0 {
        seq![]
    } else {
        match reported.last() {
            Some(id) => present(reported.drop_last()).push(id@),
            None => present(reported.drop_last()),
        }
    }
}

/// The identifiers of the encoders that the engine has.
pub fn registered_encoder_ids(reported: &Vec<Option<String>>) -> (r: Vec<String>)
    ensures
        texts(r@) == present(reported@),
{
    let mut ids: Vec<String> = Vec::new();
    let mut i: usize = 0;
    assert(texts(ids@) =~= present(reported@.take(0)));
    while i < reported.len()
        invariant
            i <= reported.len(),
            texts(ids@) == present(reported@.take(i as int)),
        decreases reported.len() - i,
    {
        let ghost before = ids@;
        assert(reported@.take(i + 1).drop_last() =~= reported@.take(i as int));
        match &reported[i] {
            Some(id) => {
                ids.push(id.clone());
                assert(texts(ids@) =~= texts(before).push(id@));
            },
            None => {},
        }
        i = i + 1;
    }
    assert(reported@.take(i as int) =~= reported@);
    ids
}

// ---------------------------------------------------------------------------
// Laws

/// An encoder that was chosen is the only one tried, and only where the engine
/// has it: no other takes its place.
pub proof fn a_chosen_encoder_has_no_substitute(i: int, ids: Seq<Seq<char>>)
    requires
        0 <= i < all_encoders().len(),
    ensures
        encoders_to_try(all_encoders()[i].id, ids) == (if ids.contains(all_encoders()[i].id) {
            seq![all_encoders()[i]]
        } else {
            seq![]
        }),
{
    let choice = all_encoders()[i].id;
    lemma_encoder_ids_differ();
    let j = choose|j: int|
        0 <= j < all_encoders().len() && (#[trigger] all_encoders()[j]).id == choice;
    assert(j == i);
    let one = chosen_from(all_encoders(), choice);
    assert(one =~= seq![all_encoders()[i]]);
    assert(one.drop_last() =~= seq![]);
    reveal_with_fuel(registered_among, 2);
    assert(encoders_to_try(choice, ids) =~= (if ids.contains(choice) {
        seq![all_encoders()[i]]
    } else {
        seq![]
    }));
}

/// Left to itself, Ember tries every encoder that the engine has, in order of
/// preference; and so it does where the choice names none that it knows.
pub proof fn an_open_choice_tries_every_encoder(choice: Seq<char>, ids: Seq<Seq<char>>)
    requires
        choice == "auto"@ || forall|i: int|
            0 <= i < all_encoders().len() ==> (#[trigger] all_encoders()[i]).id != choice,
    ensures
        encoders_to_try(choice, ids) == registered_among(all_encoders(), ids),
{
    if choice == "auto"@ {
        reveal_strlit("auto");
        reveal_strlit("obs_nvenc_h264_tex");
        reveal_strlit("h264_texture_amf");
        reveal_strlit("obs_qsv11_v2");
        reveal_strlit("obs_x264");
        let e = all_encoders();
        assert(choice.len() == 4);
        assert(e[0].id.len() == 18);
        assert(e[1].id.len() == 16);
        assert(e[2].id.len() == 12);
        assert(e[3].id.len() == 8);
    }
}

/// Only encoders that the engine has are tried.
pub proof fn only_registered_encoders_are_tried(list: Seq<CandidateView>, ids: Seq<Seq<char>>, k: int)
    requires
        0 <= k < registered_among(list, ids).len(),
    ensures
        ids.contains(registered_among(list, ids)[k].id),
        list.contains(registered_among(list, ids)[k]),
    decreases list.len(),
{
    let before = registered_among(list.drop_last(), ids);
    if k < before.len() {
        only_registered_encoders_are_tried(list.drop_last(), ids, k);
        let c = before[k];
        let j = choose|j: int| 0 <= j < list.drop_last().len() && list.drop_last()[j] == c;
        assert(list[j] == c);
    } else {
        assert(list[list.len() - 1] == list.last());
    }
}

/// Every encoder of the list that the engine has is tried.
pub proof fn every_registered_encoder_is_tried(list: Seq<CandidateView>, ids: Seq<Seq<char>>, i: int)
    requires
        0 <= i < list.len(),
        ids.contains(list[i].id),
    ensures
        registered_among(list, ids).contains(list[i]),
    decreases list.len(),
{
    let kept = registered_among(list, ids);
    if i < list.len() - 1 {
        every_registered_encoder_is_tried(list.drop_last(), ids, i);
        let before = registered_among(list.drop_last(), ids);
        let k = choose|k: int| 0 <= k < before.len() && before[k] == list[i];
        assert(kept[k] == list[i]);
    } else {
        assert(kept[kept.len() - 1] == list[i]);
    }
}

/// The failures of a search that has tried one encoder after the other, for
/// these reasons.
pub open spec fn after_failures(s: SearchView, reasons: Seq<Seq<char>>) -> SearchView
    decreases reasons.len(),
{
    if reasons.len() == 0 {
        s
    } else {
        let before = after_failures(s, reasons.drop_last());
        SearchView {
            failures: before.failures.push(attempt_failure(before.next(), reasons.last())),
            ..before
        }
    }
}

/// Encoders are tried in order of preference, each once: after so many
/// failures comes the encoder of that place, and each failure noted names the
/// encoder of its place and its reason.
pub proof fn encoders_are_tried_in_order(s: SearchView, reasons: Seq<Seq<char>>)
    requires
        s.failures.len() == 0,
        reasons.len() <= s.candidates.len(),
    ensures
        after_failures(s, reasons).candidates == s.candidates,
        after_failures(s, reasons).failures.len() == reasons.len(),
        reasons.len() < s.candidates.len() ==> after_failures(s, reasons).next()
            == s.candidates[reasons.len() as int],
        forall|i: int|
            0 <= i < reasons.len() ==> #[trigger] after_failures(s, reasons).failures[i]
                == attempt_failure(s.candidates[i], reasons[i]),
    decreases reasons.len(),
{
    if reasons.len() > 0 {
        encoders_are_tried_in_order(s, reasons.drop_last());
    }
}

/// The choices that the window offers are those that work: the first leaves the
/// choice to Ember, and each of the others, chosen, is the one encoder that is
/// tried, under the name that the window showed.
pub proof fn each_choice_tries_its_encoder(ids: Seq<Seq<char>>, i: int)
    requires
        0 <= i < encoder_choices(ids).len(),
    ensures
        encoder_choices(ids).len() == 1 + registered_among(all_encoders(), ids).len(),
        i == 0 ==> encoders_to_try(encoder_choices(ids)[i].value, ids) == registered_among(
            all_encoders(),
            ids,
        ),
        i == 0 ==> encoder_choices(ids)[i].name == "Automatico (recomendado)"@,
        i > 0 ==> {
            let tried = encoders_to_try(encoder_choices(ids)[i].value, ids);
            &&& tried.len() == 1
            &&& tried[0].id == encoder_choices(ids)[i].value
            &&& tried[0].label == encoder_choices(ids)[i].name
            &&& all_encoders().contains(tried[0])
        },
{
    if i == 0 {
        an_open_choice_tries_every_encoder("auto"@, ids);
    } else {
        let kept = registered_among(all_encoders(), ids);
        only_registered_encoders_are_tried(all_encoders(), ids, i - 1);
        let c = kept[i - 1];
        let j = choose|j: int| 0 <= j < all_encoders().len() && all_encoders()[j] == c;
        a_chosen_encoder_has_no_substitute(j, ids);
    }
}

/// The encoders tried stand in the order of preference: what is kept of two lists
/// after one another is what is kept of the first, and then of the second.
pub proof fn the_order_of_preference_is_kept(
    a: Seq<CandidateView>,
    b: Seq<CandidateView>,
    ids: Seq<Seq<char>>,
)
    ensures
        registered_among(a + b, ids) == registered_among(a, ids) + registered_among(b, ids),
    decreases b.len(),
{
    if b.len() == 0 {
        assert(a + b =~= a);
        assert(registered_among(a, ids) + registered_among(b, ids) =~= registered_among(a, ids));
    } else {
        the_order_of_preference_is_kept(a, b.drop_last(), ids);
        assert((a + b).drop_last() =~= a + b.drop_last());
        assert((a + b).last() == b.last());
        assert(registered_among(a + b, ids) =~= registered_among(a, ids) + registered_among(b, ids));
    }
}

/// The software encoder, which needs no hardware, is the last resort, after the
/// hardware encoders of the three vendors; no two have the same name.
pub proof fn the_software_encoder_is_the_last_resort(i: int, j: int)
    requires
        0 <= i < j < all_encoders().len(),
    ensures
        all_encoders().len() == 4,
        all_encoders().last() == (CandidateView { id: "obs_x264"@, label: "Software (x264)"@ }),
        all_encoders()[0] == (CandidateView { id: "obs_nvenc_h264_tex"@, label: "NVIDIA NVENC"@ }),
        all_encoders()[1] == (CandidateView { id: "h264_texture_amf"@, label: "AMD AMF"@ }),
        all_encoders()[2] == (CandidateView { id: "obs_qsv11_v2"@, label: "Intel QuickSync"@ }),
        all_encoders()[i].id != all_encoders()[j].id,
{
    lemma_encoder_ids_differ();
}

/// What went wrong with an encoder names it, by label and identifier, and ends
/// with the reason.
pub proof fn a_failure_names_the_encoder(c: CandidateView, reason: Seq<char>)
    ensures
        c.label.is_prefix_of(attempt_failure(c, reason)),
        attempt_failure(c, reason).skip(
            attempt_failure(c, reason).len() - reason.len(),
        ) == reason,
        attempt_failure(c, reason) == c.label + " ("@ + c.id + "): "@ + reason,
{
    assert(attempt_failure(c, reason).skip(attempt_failure(c, reason).len() - reason.len())
        =~= reason);
}

/// The message where no encoder works has a heading, and below it one line for
/// each encoder tried, in order.
pub proof fn the_message_lists_every_failure(failures: Seq<Seq<char>>, last: Seq<char>)
    requires
        failures.len() > 0,
    ensures
        search_failure(failures.push(last)) == search_failure(failures).push('\n') + last,
        "No se pudo iniciar la grabacion con ningun codificador de video disponible:\n"@.is_prefix_of(
            search_failure(failures),
        ),
        search_failure(seq![last])
            == "No se pudo iniciar la grabacion con ningun codificador de video disponible:\n"@
            + last,
{
    assert(failures.push(last).drop_last() =~= failures);
    assert(search_failure(failures.push(last)) =~= search_failure(failures).push('\n') + last);
    assert(search_failure(seq![last])
        =~= "No se pudo iniciar la grabacion con ningun codificador de video disponible:\n"@ + last);
}

/// The reason that the engine gives is the one told; without one the hardware is
/// thought to lack the encoder.
pub proof fn the_engine_reason_is_told(reason: String)
    ensures
        start_refusal(Some(reason)) == reason@,
        start_refusal(None)
            == "razon desconocida (probablemente el hardware no soporta este codificador)"@,
{
}

/// Exactly the identifiers that the engine reports are listed, in the order of the
/// report.
pub proof fn reported_encoders_are_listed(a: Seq<Option<String>>, b: Seq<Option<String>>, i: int)
    ensures
        present(a + b) == present(a) + present(b),
        present(a).len() <= a.len(),
        0 <= i < a.len() && a[i] is Some ==> present(a).contains(a[i]->0@),
    decreases a.len() + b.len(),
{
    if b.len() == 0 {
        assert(a + b =~= a);
        assert(present(a) + present(b) =~= present(a));
    } else {
        reported_encoders_are_listed(a, b.drop_last(), i);
        assert((a + b).drop_last() =~= a + b.drop_last());
        assert((a + b).last() == b.last());
        assert(present(a + b) =~= present(a) + present(b));
    }
    if a.len() > 0 {
        reported_encoders_are_listed(a.drop_last(), seq![], i);
        if 0 <= i < a.len() && a[i] is Some {
            if i < a.len() - 1 {
                let before = present(a.drop_last());
                assert(a.drop_last()[i] == a[i]);
                let k = choose|k: int| 0 <= k < before.len() && before[k] == a[i]->0@;
                assert(present(a)[k] == a[i]->0@);
            } else {
                assert(present(a).last() == a[i]->0@);
            }
        }
    }
}

/// The encoder tried next is the one whose place is the number of failures, and
/// none is left once as many have failed as there are.
pub proof fn the_next_encoder_is_the_first_that_has_not_failed(s: SearchView)
    requires
        s.wf(),
    ensures
        s.exhausted() <==> s.failures.len() == s.candidates.len(),
        !s.exhausted() ==> s.failures.len() < s.candidates.len() && s.next()
            == s.candidates[s.failures.len() as int],
{
}

} // verus!
