//! The layered search for the payload image.
//!
//! The image is looked for in up to three places, in this order: the path
//! given by the user, the path beside the controller's own binary, and a
//! per-user cache. The first place that yields a usable image wins. The
//! search decides which place is tried next and whether the bundled image is
//! written there; the driver looks at the file system and writes to it.

use vstd::prelude::*;
use crate::command::ProtocolError;

verus! {

/// A place where the payload image may be.
#[derive(Clone, Copy, Debug, PartialEq, Eq, Structural)]
pub enum PayloadLayer {
    /// The path given by the user.
    Override,
    /// The path beside the controller's binary.
    Sibling,
    /// The per-user cache.
    Cache,
}

impl PayloadLayer {
    /// An image found here must have the length of the bundled image: the
    /// cache may hold the image of another version.
    pub open spec fn checks_length(self) -> bool {
        self is Cache
    }

    /// Where no usable image is found here, the bundled image is written.
    pub open spec fn writes_if_absent(self) -> bool {
        self is Override || self is Cache
    }

    /// The place tried after this one.
    pub open spec fn following(self) -> Option<PayloadLayer> {
        match self {
            PayloadLayer::Override => Some(PayloadLayer::Sibling),
            PayloadLayer::Sibling => Some(PayloadLayer::Cache),
            PayloadLayer::Cache => None,
        }
    }

    /// Number of places from this one to the last.
    pub open spec fn remaining(self) -> nat {
        match self {
            PayloadLayer::Override => 3,
            PayloadLayer::Sibling => 2,
            PayloadLayer::Cache => 1,
        }
    }
}

/// Number of places from `from` to the last; none where there is no `from`.
pub open spec fn places_from(from: Option<PayloadLayer>) -> nat {
    match from {
        Some(layer) => layer.remaining(),
        None => 0,
    }
}

/// The places whose path is known.
#[derive(Clone, Copy, Debug, PartialEq, Eq, Structural)]
pub struct PayloadLayers {
    pub override_given: bool,
    pub sibling_known: bool,
    pub cache_known: bool,
}

impl PayloadLayers {
    /// The path of `layer` is known.
    pub open spec fn has(self, layer: PayloadLayer) -> bool {
        match layer {
            PayloadLayer::Override => self.override_given,
            PayloadLayer::Sibling => self.sibling_known,
            PayloadLayer::Cache => self.cache_known,
        }
    }

    /// The first place at or after `from` whose path is known.
    pub open spec fn first_from(self, from: Option<PayloadLayer>) -> Option<PayloadLayer> {
        let reach = places_from(from);
        if reach >= 3 && self.has(PayloadLayer::Override) {
            Some(PayloadLayer::Override)
        } else if reach >= 2 && self.has(PayloadLayer::Sibling) {
            Some(PayloadLayer::Sibling)
        } else if reach >= 1 && self.has(PayloadLayer::Cache) {
            Some(PayloadLayer::Cache)
        } else {
            None
        }
    }
}

/// What the file system holds at a path.
#[derive(Clone, Copy, Debug, PartialEq, Eq, Structural)]
pub struct FileProbe {
    pub is_file: bool,
    pub len: u64,
}

/// The image seen at `layer` can be used as it is.
pub open spec fn usable(layer: PayloadLayer, probe: Option<FileProbe>, expected_len: u64) -> bool {
    probe matches Some(file) && file.is_file && (layer.checks_length() ==> file.len
        == expected_len)
}

/// Outside work that the search asks for.
#[derive(Clone, Copy, Debug, PartialEq, Eq, Structural)]
pub enum PayloadCommand {
    /// Look at the path of the layer. Answered by [`PayloadEvent::Probed`].
    Probe(PayloadLayer),
    /// Write the bundled image to the path of the layer, creating the
    /// directories above it. Answered by [`PayloadEvent::Written`].
    Write(PayloadLayer),
}

/// Outcome of the command that the search issued last.
#[derive(Clone, Copy, Debug, PartialEq, Eq)]
pub enum PayloadEvent {
    /// What is at the path, or `None` where nothing could be learnt of it.
    Probed(Option<FileProbe>),
    /// Whether the image was written.
    Written(bool),
}

/// Answer of the search to one input.
#[derive(Clone, Copy, Debug, PartialEq, Eq, Structural)]
pub enum PayloadStep {
    Perform(PayloadCommand),
    /// The image at the path of this layer is to be used.
    Found(PayloadLayer),
    /// No place yielded an image.
    NotFound,
}

/// Where the search stands.
#[derive(Clone, Copy, Debug, PartialEq, Eq, Structural)]
pub enum PayloadStage {
    Probing(PayloadLayer),
    Writing(PayloadLayer),
    Finished,
}

/// State of the search.
pub struct PayloadSearchState {
    pub layers: PayloadLayers,
    pub expected_len: u64,
    pub stage: PayloadStage,
}

/// What probing and writing would come to at one place.
pub struct PayloadSite {
    pub probe: Option<FileProbe>,
    pub writable: bool,
}

/// What probing and writing would come to at each place.
pub struct PayloadFiles {
    pub at_override: PayloadSite,
    pub at_sibling: PayloadSite,
    pub at_cache: PayloadSite,
}

impl PayloadFiles {
    /// What probing and writing would come to at `layer`.
    pub open spec fn at(self, layer: PayloadLayer) -> PayloadSite {
        match layer {
            PayloadLayer::Override => self.at_override,
            PayloadLayer::Sibling => self.at_sibling,
            PayloadLayer::Cache => self.at_cache,
        }
    }

    /// The place yields an image: one is there and usable, or the bundled
    /// one may be and can be written there.
    pub open spec fn yields(self, layer: PayloadLayer, expected_len: u64) -> bool {
        usable(layer, self.at(layer).probe, expected_len) || (layer.writes_if_absent()
            && self.at(layer).writable)
    }

    /// The outcome of `command`.
    pub open spec fn outcome_of(self, command: PayloadCommand) -> PayloadEvent {
        match command {
            PayloadCommand::Probe(layer) => PayloadEvent::Probed(self.at(layer).probe),
            PayloadCommand::Write(layer) => PayloadEvent::Written(self.at(layer).writable),
        }
    }

    /// The first place at or after `from` whose path is known and which
    /// yields an image.
    pub open spec fn choice(
        self,
        layers: PayloadLayers,
        expected_len: u64,
        from: Option<PayloadLayer>,
    ) -> Option<PayloadLayer> {
        let reach = places_from(from);
        let yielding = |layer: PayloadLayer| layers.has(layer) && self.yields(layer, expected_len);
        if reach >= 3 && yielding(PayloadLayer::Override) {
            Some(PayloadLayer::Override)
        } else if reach >= 2 && yielding(PayloadLayer::Sibling) {
            Some(PayloadLayer::Sibling)
        } else if reach >= 1 && yielding(PayloadLayer::Cache) {
            Some(PayloadLayer::Cache)
        } else {
            None
        }
    }
}

impl PayloadSearchState {
    /// The search turns to `candidate`, or ends for want of one.
    pub open spec fn turn_to(self, candidate: Option<PayloadLayer>) -> (
        PayloadSearchState,
        PayloadStep,
    ) {
        match candidate {
            Some(layer) => (
                PayloadSearchState { stage: PayloadStage::Probing(layer), ..self },
                PayloadStep::Perform(PayloadCommand::Probe(layer)),
            ),
            None => (
                PayloadSearchState { stage: PayloadStage::Finished, ..self },
                PayloadStep::NotFound,
            ),
        }
    }

    /// The search ends at `layer`.
    pub open spec fn settle_on(self, layer: PayloadLayer) -> (PayloadSearchState, PayloadStep) {
        (PayloadSearchState { stage: PayloadStage::Finished, ..self }, PayloadStep::Found(layer))
    }

    /// The search as it begins: at the first place whose path is known.
    pub open spec fn start(layers: PayloadLayers, expected_len: u64) -> (
        PayloadSearchState,
        PayloadStep,
    ) {
        PayloadSearchState { layers, expected_len, stage: PayloadStage::Finished }.turn_to(
            layers.first_from(Some(PayloadLayer::Override)),
        )
    }

    /// The outcome of the outstanding command has arrived.
    ///
    /// A usable image ends the search. Where there is none and the place
    /// allows it, the bundled image is written there, and the search ends if
    /// that succeeds. Failing both, the search moves on.
    pub open spec fn resume(self, event: PayloadEvent) -> (
        PayloadSearchState,
        Result<PayloadStep, ProtocolError>,
    ) {
        match (self.stage, event) {
            (PayloadStage::Finished, _) => (self, Err(ProtocolError::NothingPending)),
            (PayloadStage::Probing(layer), PayloadEvent::Probed(probe)) => {
                let (search, step) = if usable(layer, probe, self.expected_len) {
                    self.settle_on(layer)
                } else if layer.writes_if_absent() {
                    (
                        PayloadSearchState { stage: PayloadStage::Writing(layer), ..self },
                        PayloadStep::Perform(PayloadCommand::Write(layer)),
                    )
                } else {
                    self.turn_to(self.layers.first_from(layer.following()))
                };
                (search, Ok(step))
            },
            (PayloadStage::Writing(layer), PayloadEvent::Written(written)) => {
                let (search, step) = if written {
                    self.settle_on(layer)
                } else {
                    self.turn_to(self.layers.first_from(layer.following()))
                };
                (search, Ok(step))
            },
            _ => (self, Err(ProtocolError::Mismatch)),
        }
    }

    /// Bound on the number of commands still to come.
    pub open spec fn effort(self) -> nat {
        match self.stage {
            PayloadStage::Probing(layer) => 2 * layer.remaining(),
            PayloadStage::Writing(layer) => (2 * layer.remaining() - 1) as nat,
            PayloadStage::Finished => 0,
        }
    }

    /// Where the search ends when every command has the outcome that `files`
    /// holds for it: the layer found, or `None`.
    pub open spec fn ends_at(self, step: PayloadStep, files: PayloadFiles) -> Option<PayloadLayer>
        decreases self.effort(),
    {
        match step {
            PayloadStep::Found(layer) => Some(layer),
            PayloadStep::NotFound => None,
            PayloadStep::Perform(command) => {
                let (search, answer) = self.resume(files.outcome_of(command));
                match answer {
                    Ok(next) => search.ends_at(next, files),
                    Err(_) => None,
                }
            },
        }
    }
}

/// Every outcome that the search accepts brings it nearer to its end.
pub proof fn lemma_effort_decreases(search: PayloadSearchState, event: PayloadEvent)
    ensures
        search.resume(event).1 is Ok ==> search.resume(event).0.effort() < search.effort(),
{
}

/// The layered search for the payload image, as a machine that a driver
/// steps through.
#[derive(Debug)]
pub struct PayloadSearch {
    layers: PayloadLayers,
    expected_len: u64,
    stage: PayloadStage,
}

impl View for PayloadSearch {
    type V = PayloadSearchState;

    closed spec fn view(&self) -> PayloadSearchState {
        PayloadSearchState {
            layers: self.layers,
            expected_len: self.expected_len,
            stage: self.stage,
        }
    }
}

/// The place tried after `layer`.
fn following_layer(layer: PayloadLayer) -> (next: Option<PayloadLayer>)
    ensures
        next == layer.following(),
{
    match layer {
        PayloadLayer::Override => Some(PayloadLayer::Sibling),
        PayloadLayer::Sibling => Some(PayloadLayer::Cache),
        PayloadLayer::Cache => None,
    }
}

impl PayloadLayers {
    /// Whether the path of `layer` is known.
    pub fn knows(&self, layer: PayloadLayer) -> (known: bool)
        ensures
            known == self.has(layer),
    {
        match layer {
            PayloadLayer::Override => self.override_given,
            PayloadLayer::Sibling => self.sibling_known,
            PayloadLayer::Cache => self.cache_known,
        }
    }

    /// The first place at or after `from` whose path is known.
    fn first_known_from(&self, from: Option<PayloadLayer>) -> (found: Option<PayloadLayer>)
        ensures
            found == self.first_from(from),
    {
        let reach: u8 = match from {
            Some(PayloadLayer::Override) => 3,
            Some(PayloadLayer::Sibling) => 2,
            Some(PayloadLayer::Cache) => 1,
            None => 0,
        };
        if reach >= 3 && self.knows(PayloadLayer::Override) {
            Some(PayloadLayer::Override)
        } else if reach >= 2 && self.knows(PayloadLayer::Sibling) {
            Some(PayloadLayer::Sibling)
        } else if reach >= 1 && self.knows(PayloadLayer::Cache) {
            Some(PayloadLayer::Cache)
        } else {
            None
        }
    }
}

impl PayloadSearch {
    /// Begins a search among the places whose path is known. `expected_len`
    /// is the length of the bundled image.
    ///
    /// The answer is the probe of the first known place, or `NotFound`
    /// where no path is known at all.
    pub fn start(layers: PayloadLayers, expected_len: u64) -> (begun: (PayloadSearch, PayloadStep))
        ensures
            (begun.0@, begun.1) == PayloadSearchState::start(layers, expected_len),
    {
        let mut search = PayloadSearch { layers, expected_len, stage: PayloadStage::Finished };
        let step = search.turn_to(layers.first_known_from(Some(PayloadLayer::Override)));
        (search, step)
    }

    /// Turns to `candidate`, or ends the search for want of one.
    fn turn_to(&mut self, candidate: Option<PayloadLayer>) -> (step: PayloadStep)
        ensures
            (final(self)@, step) == old(self)@.turn_to(candidate),
    {
        match candidate {
            Some(layer) => {
                self.stage = PayloadStage::Probing(layer);
                PayloadStep::Perform(PayloadCommand::Probe(layer))
            },
            None => {
                self.stage = PayloadStage::Finished;
                PayloadStep::NotFound
            },
        }
    }

    /// Moves on to the first known place after `layer`.
    fn move_on(&mut self, layer: PayloadLayer) -> (step: PayloadStep)
        ensures
            (final(self)@, step) == old(self)@.turn_to(
                old(self)@.layers.first_from(layer.following()),
            ),
    {
        let candidate = self.layers.first_known_from(following_layer(layer));
        self.turn_to(candidate)
    }

    /// Whether the image seen at `layer` can be used as it is.
    fn is_usable(&self, layer: PayloadLayer, probe: Option<FileProbe>) -> (usable_here: bool)
        ensures
            usable_here == usable(layer, probe, self@.expected_len),
    {
        match probe {
            None => false,
            Some(file) => file.is_file && (!matches!(layer, PayloadLayer::Cache) || file.len
                == self.expected_len),
        }
    }

    /// Takes the outcome of the command that was answered last.
    ///
    /// Refused as `NothingPending` once the search has ended, and as
    /// `Mismatch` where the outcome is not that of the outstanding command.
    pub fn resume(&mut self, event: PayloadEvent) -> (answer: Result<PayloadStep, ProtocolError>)
        ensures
            (final(self)@, answer) == old(self)@.resume(event),
    {
        match (self.stage, event) {
            (PayloadStage::Finished, _) => Err(ProtocolError::NothingPending),
            (PayloadStage::Probing(layer), PayloadEvent::Probed(probe)) => {
                if self.is_usable(layer, probe) {
                    self.stage = PayloadStage::Finished;
                    Ok(PayloadStep::Found(layer))
                } else if matches!(layer, PayloadLayer::Override | PayloadLayer::Cache) {
                    self.stage = PayloadStage::Writing(layer);
                    Ok(PayloadStep::Perform(PayloadCommand::Write(layer)))
                } else {
                    Ok(self.move_on(layer))
                }
            },
            (PayloadStage::Writing(layer), PayloadEvent::Written(written)) => {
                if written {
                    self.stage = PayloadStage::Finished;
                    Ok(PayloadStep::Found(layer))
                } else {
                    Ok(self.move_on(layer))
                }
            },
            _ => Err(ProtocolError::Mismatch),
        }
    }
}

/// The search finds the first place, in the order of the layers, whose path
/// is known and which yields an image; and it finds none only if there is no
/// such place.
pub proof fn lemma_search_finds_first_yielding_layer(
    layers: PayloadLayers,
    expected_len: u64,
    files: PayloadFiles,
)
    ensures
        ({
            let (search, step) = PayloadSearchState::start(layers, expected_len);
            search.ends_at(step, files) == files.choice(
                layers,
                expected_len,
                Some(PayloadLayer::Override),
            )
        }),
{
    let search = PayloadSearchState { layers, expected_len, stage: PayloadStage::Finished };
    lemma_search_from(search, Some(PayloadLayer::Override), files);
}

/// From whichever place the search turns to, it ends at the first place from
/// there on that yields an image.
pub proof fn lemma_search_from(
    search: PayloadSearchState,
    from: Option<PayloadLayer>,
    files: PayloadFiles,
)
    ensures
        ({
            let (turned, step) = search.turn_to(search.layers.first_from(from));
            turned.ends_at(step, files) == files.choice(search.layers, search.expected_len, from)
        }),
    decreases places_from(from),
{
    let (turned, step) = search.turn_to(search.layers.first_from(from));
    match from {
        None => {},
        Some(layer) => {
            if search.layers.has(layer) {
                let probed = turned.resume(PayloadEvent::Probed(files.at(layer).probe));
                if usable(layer, files.at(layer).probe, search.expected_len) {
                    assert(probed.0.ends_at(probed.1->Ok_0, files) == Some(layer));
                } else if layer.writes_if_absent() {
                    let written = probed.0.resume(PayloadEvent::Written(files.at(layer).writable));
                    if files.at(layer).writable {
                        assert(written.0.ends_at(written.1->Ok_0, files) == Some(layer));
                    } else {
                        lemma_search_from(probed.0, layer.following(), files);
                        assert(written.0.ends_at(written.1->Ok_0, files) == files.choice(
                            search.layers,
                            search.expected_len,
                            layer.following(),
                        ));
                    }
                    assert(probed.0.ends_at(probed.1->Ok_0, files) == written.0.ends_at(
                        written.1->Ok_0,
                        files,
                    ));
                } else {
                    lemma_search_from(turned, layer.following(), files);
                }
            } else {
                lemma_search_from(search, layer.following(), files);
            }
        },
    }
}

} // verus!
