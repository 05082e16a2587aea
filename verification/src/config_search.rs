//! The layered search for the filter configuration.
//!
//! The configuration is looked for in up to three places, in this order: the
//! path given by the user, the path beside the controller's own binary, and
//! the default bundled with the controller. The first place that yields a
//! valid configuration wins. The search decides which place is tried next
//! and whether the default is written there; the driver reads, parses and
//! writes.

use vstd::prelude::*;
use crate::command::ProtocolError;
use crate::filter::FilterConfig;

verus! {

/// A place where the filter configuration may be.
#[derive(Clone, Copy, Debug, PartialEq, Eq, Structural)]
pub enum ConfigLayer {
    /// The path given by the user.
    Override,
    /// The path beside the controller's binary.
    Sibling,
    /// The default bundled with the controller.
    Bundled,
}

impl ConfigLayer {
    /// Where nothing can be read here, the default is written and adopted.
    pub open spec fn writes_if_absent(self) -> bool {
        self is Override
    }

    /// The place tried after this one.
    pub open spec fn following(self) -> Option<ConfigLayer> {
        match self {
            ConfigLayer::Override => Some(ConfigLayer::Sibling),
            ConfigLayer::Sibling => Some(ConfigLayer::Bundled),
            ConfigLayer::Bundled => None,
        }
    }

    /// Number of places from this one to the last.
    pub open spec fn remaining(self) -> nat {
        match self {
            ConfigLayer::Override => 3,
            ConfigLayer::Sibling => 2,
            ConfigLayer::Bundled => 1,
        }
    }
}

/// Number of places from `from` to the last; none where there is no `from`.
pub open spec fn places_from(from: Option<ConfigLayer>) -> nat {
    match from {
        Some(layer) => layer.remaining(),
        None => 0,
    }
}

/// The places whose path is known. The bundled default is always at hand.
#[derive(Clone, Copy, Debug, PartialEq, Eq, Structural)]
pub struct ConfigLayers {
    pub override_given: bool,
    pub sibling_known: bool,
}

impl ConfigLayers {
    /// The place can be tried.
    pub open spec fn has(self, layer: ConfigLayer) -> bool {
        match layer {
            ConfigLayer::Override => self.override_given,
            ConfigLayer::Sibling => self.sibling_known,
            ConfigLayer::Bundled => true,
        }
    }

    /// The first place at or after `from` that can be tried.
    pub open spec fn first_from(self, from: Option<ConfigLayer>) -> Option<ConfigLayer> {
        let reach = places_from(from);
        if reach >= 3 && self.has(ConfigLayer::Override) {
            Some(ConfigLayer::Override)
        } else if reach >= 2 && self.has(ConfigLayer::Sibling) {
            Some(ConfigLayer::Sibling)
        } else if reach >= 1 && self.has(ConfigLayer::Bundled) {
            Some(ConfigLayer::Bundled)
        } else {
            None
        }
    }
}

/// What reading and parsing a place came to.
#[derive(Debug, PartialEq, Eq)]
pub enum Loaded {
    /// Nothing could be read.
    Missing,
    /// What was read is no valid configuration.
    Invalid,
    Parsed(FilterConfig),
}

impl Loaded {
    /// The configuration, where there is one.
    pub open spec fn parsed(self) -> Option<FilterConfig> {
        match self {
            Loaded::Parsed(config) => Some(config),
            _ => None,
        }
    }
}

/// Outside work that the search asks for.
#[derive(Clone, Copy, Debug, PartialEq, Eq, Structural)]
pub enum ConfigCommand {
    /// Read the text of the layer and parse it: the file at its path, or,
    /// for [`ConfigLayer::Bundled`], the bundled default.
    /// Answered by [`ConfigEvent::Loaded`].
    Load(ConfigLayer),
    /// Write the bundled default to the path of the layer, creating the
    /// directories above it. Answered by [`ConfigEvent::Written`].
    WriteDefault(ConfigLayer),
}

/// Outcome of the command that the search issued last.
#[derive(Debug, PartialEq, Eq)]
pub enum ConfigEvent {
    Loaded(Loaded),
    /// Whether the default was written.
    Written(bool),
}

/// Answer of the search to one input.
#[derive(Debug, PartialEq, Eq)]
pub enum ConfigStep {
    Perform(ConfigCommand),
    /// The configuration to use.
    Found(FilterConfig),
    /// No place yielded a configuration.
    NotFound,
}

/// Where the search stands.
#[derive(Clone, Copy, Debug, PartialEq, Eq, Structural)]
pub enum ConfigStage {
    /// The layer is being read.
    Loading(ConfigLayer),
    /// The default is being written to the layer.
    Writing(ConfigLayer),
    /// The default was written to the layer and is being parsed in its
    /// place.
    Adopting(ConfigLayer),
    Finished,
}

/// State of the search.
pub struct ConfigSearchState {
    pub layers: ConfigLayers,
    pub stage: ConfigStage,
}

/// What reading and writing would come to at one path.
pub struct ConfigSite {
    pub content: Loaded,
    pub writable: bool,
}

/// What reading and writing would come to at each place.
pub struct ConfigFiles {
    pub at_override: ConfigSite,
    pub at_sibling: ConfigSite,
    pub bundled: Loaded,
}

impl ConfigFiles {
    /// What reading and parsing `layer` comes to.
    pub open spec fn content(self, layer: ConfigLayer) -> Loaded {
        match layer {
            ConfigLayer::Override => self.at_override.content,
            ConfigLayer::Sibling => self.at_sibling.content,
            ConfigLayer::Bundled => self.bundled,
        }
    }

    /// Whether the default can be written to `layer`.
    pub open spec fn writable(self, layer: ConfigLayer) -> bool {
        match layer {
            ConfigLayer::Override => self.at_override.writable,
            ConfigLayer::Sibling => self.at_sibling.writable,
            ConfigLayer::Bundled => false,
        }
    }

    /// The configuration that the place yields: the one that is there, or
    /// the default where nothing is there and the default may be and can be
    /// written.
    pub open spec fn yields(self, layer: ConfigLayer) -> Option<FilterConfig> {
        match self.content(layer) {
            Loaded::Parsed(config) => Some(config),
            Loaded::Invalid => None,
            Loaded::Missing => if layer.writes_if_absent() && self.writable(layer) {
                self.bundled.parsed()
            } else {
                None
            },
        }
    }

    /// The configuration of the first place at or after `from` that can be
    /// tried and yields one.
    pub open spec fn choice(self, layers: ConfigLayers, from: Option<ConfigLayer>) -> Option<
        FilterConfig,
    > {
        let reach = places_from(from);
        if reach >= 3 && layers.has(ConfigLayer::Override) && self.yields(ConfigLayer::Override)
            is Some {
            self.yields(ConfigLayer::Override)
        } else if reach >= 2 && layers.has(ConfigLayer::Sibling) && self.yields(
            ConfigLayer::Sibling,
        ) is Some {
            self.yields(ConfigLayer::Sibling)
        } else if reach >= 1 && layers.has(ConfigLayer::Bundled) {
            self.yields(ConfigLayer::Bundled)
        } else {
            None
        }
    }

    /// The outcome of `command`.
    pub open spec fn outcome_of(self, command: ConfigCommand) -> ConfigEvent {
        match command {
            ConfigCommand::Load(layer) => ConfigEvent::Loaded(self.content(layer)),
            ConfigCommand::WriteDefault(layer) => ConfigEvent::Written(self.writable(layer)),
        }
    }
}

/// An input was taken: the search goes on as `outcome` says.
pub open spec fn accepted(outcome: (ConfigSearchState, ConfigStep)) -> (
    ConfigSearchState,
    Result<ConfigStep, ProtocolError>,
) {
    (outcome.0, Ok(outcome.1))
}

impl ConfigSearchState {
    /// The search turns to `candidate`, or ends for want of one.
    pub open spec fn turn_to(self, candidate: Option<ConfigLayer>) -> (
        ConfigSearchState,
        ConfigStep,
    ) {
        match candidate {
            Some(layer) => (
                ConfigSearchState { stage: ConfigStage::Loading(layer), ..self },
                ConfigStep::Perform(ConfigCommand::Load(layer)),
            ),
            None => (
                ConfigSearchState { stage: ConfigStage::Finished, ..self },
                ConfigStep::NotFound,
            ),
        }
    }

    /// The search moves on to the first place after `layer` that can be
    /// tried.
    pub open spec fn move_on(self, layer: ConfigLayer) -> (ConfigSearchState, ConfigStep) {
        self.turn_to(self.layers.first_from(layer.following()))
    }

    /// The search ends with `config`.
    pub open spec fn settle_on(self, config: FilterConfig) -> (ConfigSearchState, ConfigStep) {
        (ConfigSearchState { stage: ConfigStage::Finished, ..self }, ConfigStep::Found(config))
    }

    /// The search as it begins: at the first place that can be tried.
    pub open spec fn start(layers: ConfigLayers) -> (ConfigSearchState, ConfigStep) {
        ConfigSearchState { layers, stage: ConfigStage::Finished }.turn_to(
            layers.first_from(Some(ConfigLayer::Override)),
        )
    }

    /// The outcome of the outstanding command has arrived.
    ///
    /// A valid configuration ends the search. A place that holds an invalid
    /// one is passed over. Where nothing can be read and the place allows
    /// it, the default is written there and then parsed in its stead; if
    /// either fails the place is passed over too.
    pub open spec fn resume(self, event: ConfigEvent) -> (
        ConfigSearchState,
        Result<ConfigStep, ProtocolError>,
    ) {
        match (self.stage, event) {
            (ConfigStage::Finished, _) => (self, Err(ProtocolError::NothingPending)),
            (ConfigStage::Loading(layer), ConfigEvent::Loaded(Loaded::Parsed(config))) => accepted(
                self.settle_on(config),
            ),
            (ConfigStage::Loading(layer), ConfigEvent::Loaded(Loaded::Missing)) => accepted(
                if layer.writes_if_absent() {
                    (
                        ConfigSearchState { stage: ConfigStage::Writing(layer), ..self },
                        ConfigStep::Perform(ConfigCommand::WriteDefault(layer)),
                    )
                } else {
                    self.move_on(layer)
                },
            ),
            (ConfigStage::Loading(layer), ConfigEvent::Loaded(Loaded::Invalid)) => accepted(
                self.move_on(layer),
            ),
            (ConfigStage::Writing(layer), ConfigEvent::Written(written)) => accepted(
                if written {
                    (
                        ConfigSearchState { stage: ConfigStage::Adopting(layer), ..self },
                        ConfigStep::Perform(ConfigCommand::Load(ConfigLayer::Bundled)),
                    )
                } else {
                    self.move_on(layer)
                },
            ),
            (ConfigStage::Adopting(layer), ConfigEvent::Loaded(Loaded::Parsed(config))) => accepted(
                self.settle_on(config),
            ),
            (ConfigStage::Adopting(layer), ConfigEvent::Loaded(_)) => accepted(self.move_on(layer)),
            _ => (self, Err(ProtocolError::Mismatch)),
        }
    }

    /// Bound on the number of commands still to come.
    pub open spec fn effort(self) -> nat {
        match self.stage {
            ConfigStage::Loading(layer) => 3 * layer.remaining(),
            ConfigStage::Writing(layer) => (3 * layer.remaining() - 1) as nat,
            ConfigStage::Adopting(layer) => (3 * layer.remaining() - 2) as nat,
            ConfigStage::Finished => 0,
        }
    }

    /// What the search ends with when every command has the outcome that
    /// `files` holds for it: the configuration found, or `None`.
    pub open spec fn ends_with(self, step: ConfigStep, files: ConfigFiles) -> Option<FilterConfig>
        decreases self.effort(),
    {
        match step {
            ConfigStep::Found(config) => Some(config),
            ConfigStep::NotFound => None,
            ConfigStep::Perform(command) => {
                let (search, answer) = self.resume(files.outcome_of(command));
                match answer {
                    Ok(next) => search.ends_with(next, files),
                    Err(_) => None,
                }
            },
        }
    }
}

/// Every outcome that the search accepts brings it nearer to its end.
pub proof fn lemma_effort_decreases(search: ConfigSearchState, event: ConfigEvent)
    ensures
        search.resume(event).1 is Ok ==> search.resume(event).0.effort() < search.effort(),
{
}

/// The layered search for the filter configuration, as a machine that a
/// driver steps through.
#[derive(Debug)]
pub struct ConfigSearch {
    layers: ConfigLayers,
    stage: ConfigStage,
}

impl View for ConfigSearch {
    type V = ConfigSearchState;

    closed spec fn view(&self) -> ConfigSearchState {
        ConfigSearchState { layers: self.layers, stage: self.stage }
    }
}

/// The place tried after `layer`.
fn following_layer(layer: ConfigLayer) -> (next: Option<ConfigLayer>)
    ensures
        next == layer.following(),
{
    match layer {
        ConfigLayer::Override => Some(ConfigLayer::Sibling),
        ConfigLayer::Sibling => Some(ConfigLayer::Bundled),
        ConfigLayer::Bundled => None,
    }
}

impl ConfigLayers {
    /// Whether `layer` can be tried.
    pub fn knows(&self, layer: ConfigLayer) -> (known: bool)
        ensures
            known == self.has(layer),
    {
        match layer {
            ConfigLayer::Override => self.override_given,
            ConfigLayer::Sibling => self.sibling_known,
            ConfigLayer::Bundled => true,
        }
    }

    /// The first place at or after `from` that can be tried.
    fn first_known_from(&self, from: Option<ConfigLayer>) -> (found: Option<ConfigLayer>)
        ensures
            found == self.first_from(from),
    {
        let reach: u8 = match from {
            Some(ConfigLayer::Override) => 3,
            Some(ConfigLayer::Sibling) => 2,
            Some(ConfigLayer::Bundled) => 1,
            None => 0,
        };
        if reach >= 3 && self.knows(ConfigLayer::Override) {
            Some(ConfigLayer::Override)
        } else if reach >= 2 && self.knows(ConfigLayer::Sibling) {
            Some(ConfigLayer::Sibling)
        } else if reach >= 1 && self.knows(ConfigLayer::Bundled) {
            Some(ConfigLayer::Bundled)
        } else {
            None
        }
    }
}

impl ConfigSearch {
    /// Begins a search among the places that can be tried.
    ///
    /// The answer is the command that loads the first of them. The bundled
    /// default can always be tried, so there always is one.
    pub fn start(layers: ConfigLayers) -> (begun: (ConfigSearch, ConfigStep))
        ensures
            (begun.0@, begun.1) == ConfigSearchState::start(layers),
    {
        let mut search = ConfigSearch { layers, stage: ConfigStage::Finished };
        let step = search.turn_to(layers.first_known_from(Some(ConfigLayer::Override)));
        (search, step)
    }

    /// Turns to `candidate`, or ends the search for want of one.
    fn turn_to(&mut self, candidate: Option<ConfigLayer>) -> (step: ConfigStep)
        ensures
            (final(self)@, step) == old(self)@.turn_to(candidate),
    {
        match candidate {
            Some(layer) => {
                self.stage = ConfigStage::Loading(layer);
                ConfigStep::Perform(ConfigCommand::Load(layer))
            },
            None => {
                self.stage = ConfigStage::Finished;
                ConfigStep::NotFound
            },
        }
    }

    /// Moves on to the first place after `layer` that can be tried.
    fn move_on(&mut self, layer: ConfigLayer) -> (step: ConfigStep)
        ensures
            (final(self)@, step) == old(self)@.move_on(layer),
    {
        let candidate = self.layers.first_known_from(following_layer(layer));
        self.turn_to(candidate)
    }

    /// Ends the search with `config`.
    fn settle_on(&mut self, config: FilterConfig) -> (step: ConfigStep)
        ensures
            (final(self)@, step) == old(self)@.settle_on(config),
    {
        self.stage = ConfigStage::Finished;
        ConfigStep::Found(config)
    }

    /// Takes the outcome of the command that was answered last.
    ///
    /// Refused as `NothingPending` once the search has ended, and as
    /// `Mismatch` where the outcome is not that of the outstanding command.
    pub fn resume(&mut self, event: ConfigEvent) -> (answer: Result<ConfigStep, ProtocolError>)
        ensures
            (final(self)@, answer) == old(self)@.resume(event),
    {
        match (self.stage, event) {
            (ConfigStage::Finished, _) => Err(ProtocolError::NothingPending),
            (ConfigStage::Loading(layer), ConfigEvent::Loaded(Loaded::Parsed(config))) => Ok(
                self.settle_on(config),
            ),
            (ConfigStage::Loading(layer), ConfigEvent::Loaded(Loaded::Missing)) => {
                if matches!(layer, ConfigLayer::Override) {
                    self.stage = ConfigStage::Writing(layer);
                    Ok(ConfigStep::Perform(ConfigCommand::WriteDefault(layer)))
                } else {
                    Ok(self.move_on(layer))
                }
            },
            (ConfigStage::Loading(layer), ConfigEvent::Loaded(Loaded::Invalid)) => Ok(
                self.move_on(layer),
            ),
            (ConfigStage::Writing(layer), ConfigEvent::Written(written)) => {
                if written {
                    self.stage = ConfigStage::Adopting(layer);
                    Ok(ConfigStep::Perform(ConfigCommand::Load(ConfigLayer::Bundled)))
                } else {
                    Ok(self.move_on(layer))
                }
            },
            (ConfigStage::Adopting(layer), ConfigEvent::Loaded(Loaded::Parsed(config))) => Ok(
                self.settle_on(config),
            ),
            (ConfigStage::Adopting(layer), ConfigEvent::Loaded(_)) => Ok(self.move_on(layer)),
            _ => Err(ProtocolError::Mismatch),
        }
    }
}

/// The search ends with the configuration of the first place, in the order of
/// the layers, that can be tried and yields one; and it ends with none only
/// if there is no such place.
pub proof fn lemma_search_finds_first_yielding_layer(layers: ConfigLayers, files: ConfigFiles)
    ensures
        ({
            let (search, step) = ConfigSearchState::start(layers);
            search.ends_with(step, files) == files.choice(layers, Some(ConfigLayer::Override))
        }),
{
    let search = ConfigSearchState { layers, stage: ConfigStage::Finished };
    lemma_search_from(search, Some(ConfigLayer::Override), files);
}

/// From whichever place the search turns to, it ends with the configuration
/// of the first place from there on that yields one.
pub proof fn lemma_search_from(
    search: ConfigSearchState,
    from: Option<ConfigLayer>,
    files: ConfigFiles,
)
    ensures
        ({
            let (turned, step) = search.turn_to(search.layers.first_from(from));
            turned.ends_with(step, files) == files.choice(search.layers, from)
        }),
    decreases places_from(from),
{
    let (turned, step) = search.turn_to(search.layers.first_from(from));
    match from {
        None => {},
        Some(layer) => {
            if !search.layers.has(layer) {
                lemma_search_from(search, layer.following(), files);
            } else {
                let loaded = turned.resume(ConfigEvent::Loaded(files.content(layer)));
                assert(turned.ends_with(step, files) == loaded.0.ends_with(loaded.1->Ok_0, files));
                match files.content(layer) {
                    Loaded::Parsed(config) => {},
                    Loaded::Invalid => {
                        lemma_search_from(turned, layer.following(), files);
                    },
                    Loaded::Missing => {
                        if layer.writes_if_absent() {
                            let written = loaded.0.resume(
                                ConfigEvent::Written(files.writable(layer)),
                            );
                            assert(loaded.0.ends_with(loaded.1->Ok_0, files) == written.0.ends_with(
                                written.1->Ok_0,
                                files,
                            ));
                            if files.writable(layer) {
                                let adopted = written.0.resume(ConfigEvent::Loaded(files.bundled));
                                assert(written.0.ends_with(written.1->Ok_0, files)
                                    == adopted.0.ends_with(adopted.1->Ok_0, files));
                                if files.bundled is Parsed {
                                } else {
                                    lemma_search_from(written.0, layer.following(), files);
                                }
                            } else {
                                lemma_search_from(loaded.0, layer.following(), files);
                            }
                        } else {
                            lemma_search_from(turned, layer.following(), files);
                        }
                    },
                }
            }
        },
    }
}

} // verus!
