//! One synthesis run as a state machine. The caller performs each action that
//! the session hands out (load the model, load the styles, create the output
//! directory, call the model, save a range of the waveform) and reports back
//! how it went; the session decides what comes next, which file each range is
//! saved under, and how the run ends.
use vstd::prelude::*;
use crate::batch::{batch_is_valid, check_batch, is_trim_of, output_fits, trim_ranges, FrameRange, TtsError};
use crate::config::TtsConfig;
use crate::names::{output_file_name, output_name};

verus! {

/// Where a run stands: the action it last handed out, or its end.
#[derive(Debug, Clone, Copy, PartialEq, Eq, Structural)]
pub enum Phase {
    LoadModel,
    LoadStyles,
    PrepareOutput,
    Synthesize,
    Save,
    Done,
}

/// What the caller is to do next.
#[derive(Debug)]
pub enum Action {
    /// Load the model from the request's directory, with its accelerator preference.
    LoadModel,
    /// Load the voice styles of the request, every path required.
    LoadStyles,
    /// Create the output directory, with its parents where absent.
    CreateOutputDir,
    /// Call the model once on all texts, for repetition `repetition` (from zero).
    Synthesize { repetition: usize },
    /// Write frames `range` of the last waveform, at the model's sample rate,
    /// to `file_name` in the output directory.
    Save { file_name: String, range: FrameRange },
    /// The run is over.
    Finish { result: Result<(), TtsError> },
}

/// How the last action went.
#[derive(Debug)]
pub enum Event {
    Succeeded,
    Failed,
    /// The model returned a waveform of `samples` frames, and for each batch
    /// item the number of frames of voiced audio in its slot.
    Synthesized { samples: usize, voiced_frames: Vec<u64> },
}

/// The characters of each text.
pub open spec fn text_views(texts: Seq<String>) -> Seq<Seq<char>> {
    texts.map_values(|t: String| t@)
}

/// The names of all files of a run, in the order they are saved: repetition
/// by repetition, and within one, batch item by batch item.
pub open spec fn planned_names(texts: Seq<Seq<char>>, repetitions: nat) -> Seq<Seq<char>> {
    Seq::new(
        repetitions * texts.len(),
        |k: int| output_name(texts[k % texts.len() as int], (k / texts.len() as int) as nat),
    )
}

/// A run that succeeds saves `repetitions * B` files, the file of batch item
/// `i` in repetition `n` under `output_name(texts[i], n)`.
pub proof fn lemma_planned_names(texts: Seq<Seq<char>>, repetitions: nat)
    requires
        texts.len() >= 1,
    ensures
        planned_names(texts, repetitions).len() == repetitions * texts.len(),
        forall|n: nat, i: nat|
            n < repetitions && i < texts.len() ==> #[trigger] planned_names(
                texts,
                repetitions,
            )[(n * texts.len() + i) as int] == output_name(texts[i as int], n),
{
    let b = texts.len();
    assert forall|n: nat, i: nat| n < repetitions && i < b implies #[trigger] planned_names(
        texts,
        repetitions,
    )[(n * b + i) as int] == output_name(texts[i as int], n) by {
        lemma_index_of(b, repetitions, n, i);
    }
}

proof fn lemma_index_of(b: nat, repetitions: nat, n: nat, i: nat)
    requires
        b >= 1,
        n < repetitions,
        i < b,
    ensures
        ((n * b + i) as int) % (b as int) == i,
        ((n * b + i) as int) / (b as int) == n,
        n * b + i + 1 <= repetitions * b,
        (n + 1) * b == n * b + b,
{
    vstd::arithmetic::div_mod::lemma_fundamental_div_mod_converse(
        (n * b + i) as int,
        b as int,
        n as int,
        i as int,
    );
    assert(n * b + i + 1 <= repetitions * b) by (nonlinear_arith)
        requires
            n < repetitions,
            i < b,
    ;
    assert((n + 1) * b == n * b + b) by (nonlinear_arith);
}

/// A synthesis run in progress.
pub struct Session {
    texts: Vec<String>,
    repetitions: usize,
    phase: Phase,
    repetition: usize,
    item: usize,
    ranges: Vec<FrameRange>,
    outcome: Result<(), TtsError>,
    saved: Ghost<Seq<Seq<char>>>,
}

impl Session {
    /// The texts of the batch.
    pub closed spec fn texts(&self) -> Seq<Seq<char>> {
        text_views(self.texts@)
    }

    pub closed spec fn repetitions(&self) -> nat {
        self.repetitions as nat
    }

    pub closed spec fn phase(&self) -> Phase {
        self.phase
    }

    /// The repetition under way, from zero.
    pub closed spec fn repetition(&self) -> nat {
        self.repetition as nat
    }

    /// The batch item whose save was handed out last.
    pub closed spec fn item(&self) -> nat {
        self.item as nat
    }

    /// The ranges kept of the last waveform, one per batch item.
    pub closed spec fn ranges(&self) -> Seq<FrameRange> {
        self.ranges@
    }

    /// How the run ended, once it has.
    pub closed spec fn outcome(&self) -> Result<(), TtsError> {
        self.outcome
    }

    /// The names of the files whose save was reported done, in order.
    pub closed spec fn saved(&self) -> Seq<Seq<char>> {
        self.saved@
    }

    pub closed spec fn wf(&self) -> bool {
        let b = self.texts@.len();
        let planned = planned_names(self.texts(), self.repetitions as nat);
        &&& self.phase != Phase::Done ==> b >= 1
        &&& self.repetition <= self.repetitions
        &&& (self.phase == Phase::LoadModel || self.phase == Phase::LoadStyles || self.phase
            == Phase::PrepareOutput) ==> self.saved@.len() == 0
        &&& self.phase == Phase::Synthesize ==> {
            &&& self.repetition < self.repetitions
            &&& self.saved@ == planned.take(self.repetition * b)
        }
        &&& self.phase == Phase::Save ==> {
            &&& self.repetition < self.repetitions
            &&& self.item < b
            &&& self.ranges@.len() == b
            &&& self.saved@ == planned.take(self.repetition * b + self.item)
        }
        &&& (self.phase == Phase::Done && self.outcome is Ok) ==> b >= 1 && self.saved@ == planned
    }

    /// `action` saves, under its file name, the range of the current item.
    pub open spec fn is_pending_save(&self, action: Action) -> bool {
        &&& self.phase() == Phase::Save
        &&& action matches Action::Save { file_name, range }
        &&& file_name@ == output_name(self.texts()[self.item() as int], self.repetition())
        &&& range == self.ranges()[self.item() as int]
    }

    /// Validates `config` and opens a run on it: the first action loads the
    /// model. A request that is not a batch ends at once with `Config`.
    pub fn start(config: &TtsConfig) -> (r: (Session, Action))
        ensures
            r.0.wf(),
            r.0.texts() == text_views(config.text_list@),
            r.0.repetitions() == config.n_test,
            r.0.saved().len() == 0,
            batch_is_valid(config.voice_style_paths@.len(), config.text_list@.len()) ==> {
                &&& r.0.phase() == Phase::LoadModel
                &&& r.1 is LoadModel
            },
            !batch_is_valid(config.voice_style_paths@.len(), config.text_list@.len()) ==> {
                &&& r.0.phase() == Phase::Done
                &&& r.0.outcome() == Err::<(), TtsError>(TtsError::Config)
                &&& r.1 == (Action::Finish { result: Err(TtsError::Config) })
            },
    {
        let mut texts: Vec<String> = Vec::new();
        let mut i: usize = 0;
        while i < config.text_list.len()
            invariant
                i <= config.text_list@.len(),
                texts@ == config.text_list@.take(i as int),
            decreases config.text_list@.len() - i,
        {
            assert(config.text_list@.take(i + 1) =~= config.text_list@.take(i as int).push(
                config.text_list@[i as int],
            ));
            texts.push(config.text_list[i].clone());
            i += 1;
        }
        assert(config.text_list@.take(i as int) =~= config.text_list@);
        let checked = check_batch(config.voice_style_paths.len(), config.text_list.len());
        let (phase, outcome, action) = match checked {
            Ok(_) => (Phase::LoadModel, Ok(()), Action::LoadModel),
            Err(e) => (Phase::Done, Err(e), Action::Finish { result: Err(e) }),
        };
        let s = Session {
            texts,
            repetitions: config.n_test,
            phase,
            repetition: 0,
            item: 0,
            ranges: Vec::new(),
            outcome,
            saved: Ghost(Seq::empty()),
        };
        (s, action)
    }

    fn finish(&mut self, result: Result<(), TtsError>) -> (action: Action)
        requires
            result is Ok ==> old(self).texts@.len() >= 1 && old(self).saved@ == planned_names(
                old(self).texts(),
                old(self).repetitions as nat,
            ),
            old(self).repetition <= old(self).repetitions,
        ensures
            final(self).wf(),
            final(self).phase() == Phase::Done,
            final(self).outcome() == result,
            action == (Action::Finish { result }),
            final(self).texts() == old(self).texts(),
            final(self).repetitions() == old(self).repetitions(),
            final(self).saved() == old(self).saved(),
    {
        self.phase = Phase::Done;
        self.outcome = result;
        Action::Finish { result }
    }

    fn save_action(&self) -> (action: Action)
        requires
            self.phase == Phase::Save,
            self.item < self.texts@.len(),
            self.ranges@.len() == self.texts@.len(),
        ensures
            self.is_pending_save(action),
    {
        let file_name = output_file_name(self.texts[self.item].as_str(), self.repetition);
        Action::Save { file_name, range: self.ranges[self.item] }
    }

    /// Takes the outcome of the last action and hands out the next one.
    pub fn step(&mut self, event: Event) -> (action: Action)
        requires
            old(self).wf(),
        ensures
            final(self).wf(),
            final(self).texts() == old(self).texts(),
            final(self).repetitions() == old(self).repetitions(),
            old(self).phase() == Phase::LoadModel ==> if event is Succeeded {
                &&& final(self).phase() == Phase::LoadStyles
                &&& action is LoadStyles
            } else {
                &&& final(self).phase() == Phase::Done
                &&& action == (Action::Finish { result: Err(TtsError::Model) })
            },
            old(self).phase() == Phase::LoadStyles ==> if event is Succeeded {
                &&& final(self).phase() == Phase::PrepareOutput
                &&& action is CreateOutputDir
            } else {
                &&& final(self).phase() == Phase::Done
                &&& action == (Action::Finish { result: Err(TtsError::Model) })
            },
            old(self).phase() == Phase::PrepareOutput ==> if !(event is Succeeded) {
                &&& final(self).phase() == Phase::Done
                &&& action == (Action::Finish { result: Err(TtsError::Io) })
            } else if old(self).repetitions() == 0 {
                &&& final(self).phase() == Phase::Done
                &&& action == (Action::Finish { result: Ok(()) })
            } else {
                &&& final(self).phase() == Phase::Synthesize
                &&& final(self).repetition() == 0
                &&& action == (Action::Synthesize { repetition: 0 })
            },
            old(self).phase() == Phase::Synthesize ==> match event {
                Event::Synthesized { samples, voiced_frames } => if output_fits(
                    old(self).texts().len(),
                    samples as nat,
                    voiced_frames@.len(),
                ) {
                    &&& is_trim_of(
                        final(self).ranges(),
                        old(self).texts().len(),
                        samples as nat,
                        voiced_frames@,
                    )
                    &&& final(self).repetition() == old(self).repetition()
                    &&& final(self).item() == 0
                    &&& final(self).is_pending_save(action)
                } else {
                    &&& final(self).phase() == Phase::Done
                    &&& action == (Action::Finish { result: Err(TtsError::Model) })
                },
                _ => {
                    &&& final(self).phase() == Phase::Done
                    &&& action == (Action::Finish { result: Err(TtsError::Model) })
                },
            },
            old(self).phase() == Phase::Save ==> if !(event is Succeeded) {
                &&& final(self).phase() == Phase::Done
                &&& action == (Action::Finish { result: Err(TtsError::Io) })
            } else if old(self).item() + 1 < old(self).texts().len() {
                &&& final(self).ranges() == old(self).ranges()
                &&& final(self).repetition() == old(self).repetition()
                &&& final(self).item() == old(self).item() + 1
                &&& final(self).is_pending_save(action)
            } else if old(self).repetition() + 1 < old(self).repetitions() {
                &&& final(self).phase() == Phase::Synthesize
                &&& final(self).repetition() == old(self).repetition() + 1
                &&& action == (Action::Synthesize { repetition: (old(self).repetition() + 1) as usize })
            } else {
                &&& final(self).phase() == Phase::Done
                &&& action == (Action::Finish { result: Ok(()) })
            },
            old(self).phase() == Phase::Done ==> {
                &&& *final(self) == *old(self)
                &&& action == (Action::Finish { result: old(self).outcome() })
            },
            (old(self).phase() == Phase::Save && event is Succeeded) ==> final(self).saved()
                == old(self).saved().push(
                output_name(old(self).texts()[old(self).item() as int], old(self).repetition()),
            ),
            !(old(self).phase() == Phase::Save && event is Succeeded) ==> final(self).saved()
                == old(self).saved(),
            (action matches Action::Finish { result } && result is Ok) ==> final(self).saved()
                == planned_names(final(self).texts(), final(self).repetitions()),
    {
        match self.phase {
            Phase::LoadModel => {
                match event {
                    Event::Succeeded => {
                        self.phase = Phase::LoadStyles;
                        Action::LoadStyles
                    },
                    _ => self.finish(Err(TtsError::Model)),
                }
            },
            Phase::LoadStyles => {
                match event {
                    Event::Succeeded => {
                        self.phase = Phase::PrepareOutput;
                        Action::CreateOutputDir
                    },
                    _ => self.finish(Err(TtsError::Model)),
                }
            },
            Phase::PrepareOutput => {
                match event {
                    Event::Succeeded => {
                        if self.repetitions == 0 {
                            assert(self.saved@ =~= planned_names(self.texts(), 0));
                            self.finish(Ok(()))
                        } else {
                            self.phase = Phase::Synthesize;
                            self.repetition = 0;
                            assert(self.saved@ =~= planned_names(
                                self.texts(),
                                self.repetitions as nat,
                            ).take(0));
                            Action::Synthesize { repetition: 0 }
                        }
                    },
                    _ => self.finish(Err(TtsError::Io)),
                }
            },
            Phase::Synthesize => {
                match event {
                    Event::Synthesized { samples, voiced_frames } => {
                        match trim_ranges(self.texts.len(), samples, &voiced_frames) {
                            Ok(ranges) => {
                                self.ranges = ranges;
                                self.phase = Phase::Save;
                                self.item = 0;
                                self.save_action()
                            },
                            Err(e) => self.finish(Err(e)),
                        }
                    },
                    _ => self.finish(Err(TtsError::Model)),
                }
            },
            Phase::Save => {
                match event {
                    Event::Succeeded => {
                        let len = self.texts.len();
                        let next = self.item + 1;
                        let ghost b = self.texts@.len();
                        let ghost n = self.repetition as nat;
                        let ghost i = self.item as nat;
                        let ghost planned = planned_names(self.texts(), self.repetitions as nat);
                        proof {
                            lemma_index_of(b, self.repetitions as nat, n, i);
                            assert(planned[(n * b + i) as int] == output_name(
                                self.texts()[i as int],
                                n,
                            ));
                            assert(planned.take((n * b + i + 1) as int) =~= planned.take(
                                (n * b + i) as int,
                            ).push(planned[(n * b + i) as int]));
                            self.saved@ = self.saved@.push(
                                output_name(self.texts()[i as int], n),
                            );
                        }
                        if next < len {
                            self.item = next;
                            self.save_action()
                        } else if self.repetition + 1 < self.repetitions {
                            self.repetition = self.repetition + 1;
                            self.item = 0;
                            self.phase = Phase::Synthesize;
                            Action::Synthesize { repetition: self.repetition }
                        } else {
                            self.repetition = self.repetitions;
                            assert(planned.take((n * b + i + 1) as int) =~= planned);
                            self.finish(Ok(()))
                        }
                    },
                    _ => self.finish(Err(TtsError::Io)),
                }
            },
            Phase::Done => Action::Finish { result: self.outcome },
        }
    }
}

} // verus!
