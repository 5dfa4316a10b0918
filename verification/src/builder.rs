//! A generic, customizable builder for the node's components.
//!
//! The node's components (transaction pool, payload service, network,
//! executor, consensus, engine validator) are configured one slot at a time
//! and materialized at a single finalize step, which fails with a
//! configuration error naming the first slot left empty. Building the actual
//! services is dependency wiring outside this core; here a component is the
//! configuration value its builder slot holds.

use vstd::prelude::*;

use core::marker::PhantomData;

verus! {

/// All the components of the node, as produced by a successful finalize step.
#[derive(Debug)]
pub struct Components<PoolB, PayloadB, NetworkB, ExecB, ConsB, EVB> {
    /// The transaction pool component.
    pub transaction_pool: PoolB,
    /// The payload builder service component.
    pub payload_builder: PayloadB,
    /// The network component.
    pub network: NetworkB,
    /// The execution component.
    pub executor: ExecB,
    /// The consensus component.
    pub consensus: ConsB,
    /// The engine validator component.
    pub engine_validator: EVB,
}

/// The first component slot found empty at the finalize step, in build order.
#[derive(Clone, Copy, Debug, PartialEq, Eq, Structural)]
pub enum ComponentsBuilderError {
    /// No executor builder was configured.
    MissingExecutorBuilder,
    /// No pool builder was configured.
    MissingPoolBuilder,
    /// No network builder was configured.
    MissingNetworkBuilder,
    /// No payload builder was configured.
    MissingPayloadBuilder,
    /// No consensus builder was configured.
    MissingConsensusBuilder,
    /// No engine validator builder was configured.
    MissingEngineValidatorBuilder,
}

/// A type that configures all the customizable components of the node and
/// knows how to build them.
pub trait NodeComponentsBuilder<Node>: Sized {
    /// The components for the node with the given types.
    type Components;

    /// The components this builder produces, or the configuration error it
    /// fails with.
    spec fn spec_build_components(self) -> Result<Self::Components, ComponentsBuilderError>;

    /// Consumes the type and returns the created components.
    fn build_components(self) -> (r: Result<Self::Components, ComponentsBuilderError>)
        ensures
            r == self.spec_build_components(),
    ;
}

/// A generic, general purpose and customizable [`NodeComponentsBuilder`]
/// implementation.
///
/// This type is stateful and captures the configuration of the node's
/// components: one optional slot per component kind, empty until configured.
pub struct ComponentsBuilder<Node, PoolB, PayloadB, NetworkB, ExecB, ConsB, EVB> {
    /// The configured pool builder, if any.
    pub pool_builder: Option<PoolB>,
    /// The configured payload service builder, if any.
    pub payload_builder: Option<PayloadB>,
    /// The configured network builder, if any.
    pub network_builder: Option<NetworkB>,
    /// The configured executor builder, if any.
    pub executor_builder: Option<ExecB>,
    /// The configured consensus builder, if any.
    pub consensus_builder: Option<ConsB>,
    /// The configured engine validator builder, if any.
    pub engine_validator_builder: Option<EVB>,
    /// Marker for the node type the components are built for.
    pub _marker: PhantomData<Node>,
}

impl<Node, PoolB, PayloadB, NetworkB, ExecB, ConsB, EVB> ComponentsBuilder<
    Node,
    PoolB,
    PayloadB,
    NetworkB,
    ExecB,
    ConsB,
    EVB,
> {
    /// Configures the node types, keeping every configured slot.
    pub fn node_types<Types>(self) -> (r: ComponentsBuilder<
        Types,
        PoolB,
        PayloadB,
        NetworkB,
        ExecB,
        ConsB,
        EVB,
    >)
        ensures
            r.pool_builder == self.pool_builder,
            r.payload_builder == self.payload_builder,
            r.network_builder == self.network_builder,
            r.executor_builder == self.executor_builder,
            r.consensus_builder == self.consensus_builder,
            r.engine_validator_builder == self.engine_validator_builder,
    {
        let ComponentsBuilder {
            pool_builder,
            payload_builder,
            network_builder,
            executor_builder,
            consensus_builder,
            engine_validator_builder,
            _marker,
        } = self;
        ComponentsBuilder {
            pool_builder,
            payload_builder,
            network_builder,
            executor_builder,
            consensus_builder,
            engine_validator_builder,
            _marker: PhantomData,
        }
    }

    /// Apply a function to the configured pool builder, if any.
    pub fn map_pool<F: FnOnce(PoolB) -> PoolB>(self, f: F) -> (r: Self)
        requires
            self.pool_builder matches Some(p) ==> f.requires((p,)),
        ensures
            (match (self.pool_builder, r.pool_builder) {
                (Some(p), Some(q)) => f.ensures((p,), q),
                (None, None) => true,
                _ => false,
            }),
            r.payload_builder == self.payload_builder,
            r.network_builder == self.network_builder,
            r.executor_builder == self.executor_builder,
            r.consensus_builder == self.consensus_builder,
            r.engine_validator_builder == self.engine_validator_builder,
    {
        let ComponentsBuilder {
            pool_builder,
            payload_builder,
            network_builder,
            executor_builder,
            consensus_builder,
            engine_validator_builder,
            _marker,
        } = self;
        let pool_builder = match pool_builder {
            Some(p) => Some(f(p)),
            None => None,
        };
        ComponentsBuilder {
            pool_builder,
            payload_builder,
            network_builder,
            executor_builder,
            consensus_builder,
            engine_validator_builder,
            _marker,
        }
    }

    /// Apply a function to the configured payload builder, if any.
    pub fn map_payload<F: FnOnce(PayloadB) -> PayloadB>(self, f: F) -> (r: Self)
        requires
            self.payload_builder matches Some(p) ==> f.requires((p,)),
        ensures
            (match (self.payload_builder, r.payload_builder) {
                (Some(p), Some(q)) => f.ensures((p,), q),
                (None, None) => true,
                _ => false,
            }),
            r.pool_builder == self.pool_builder,
            r.network_builder == self.network_builder,
            r.executor_builder == self.executor_builder,
            r.consensus_builder == self.consensus_builder,
            r.engine_validator_builder == self.engine_validator_builder,
    {
        let ComponentsBuilder {
            pool_builder,
            payload_builder,
            network_builder,
            executor_builder,
            consensus_builder,
            engine_validator_builder,
            _marker,
        } = self;
        let payload_builder = match payload_builder {
            Some(p) => Some(f(p)),
            None => None,
        };
        ComponentsBuilder {
            pool_builder,
            payload_builder,
            network_builder,
            executor_builder,
            consensus_builder,
            engine_validator_builder,
            _marker,
        }
    }

    /// Apply a function to the configured network builder, if any.
    pub fn map_network<F: FnOnce(NetworkB) -> NetworkB>(self, f: F) -> (r: Self)
        requires
            self.network_builder matches Some(p) ==> f.requires((p,)),
        ensures
            (match (self.network_builder, r.network_builder) {
                (Some(p), Some(q)) => f.ensures((p,), q),
                (None, None) => true,
                _ => false,
            }),
            r.pool_builder == self.pool_builder,
            r.payload_builder == self.payload_builder,
            r.executor_builder == self.executor_builder,
            r.consensus_builder == self.consensus_builder,
            r.engine_validator_builder == self.engine_validator_builder,
    {
        let ComponentsBuilder {
            pool_builder,
            payload_builder,
            network_builder,
            executor_builder,
            consensus_builder,
            engine_validator_builder,
            _marker,
        } = self;
        let network_builder = match network_builder {
            Some(p) => Some(f(p)),
            None => None,
        };
        ComponentsBuilder {
            pool_builder,
            payload_builder,
            network_builder,
            executor_builder,
            consensus_builder,
            engine_validator_builder,
            _marker,
        }
    }

    /// Apply a function to the configured executor builder, if any.
    pub fn map_executor<F: FnOnce(ExecB) -> ExecB>(self, f: F) -> (r: Self)
        requires
            self.executor_builder matches Some(p) ==> f.requires((p,)),
        ensures
            (match (self.executor_builder, r.executor_builder) {
                (Some(p), Some(q)) => f.ensures((p,), q),
                (None, None) => true,
                _ => false,
            }),
            r.pool_builder == self.pool_builder,
            r.payload_builder == self.payload_builder,
            r.network_builder == self.network_builder,
            r.consensus_builder == self.consensus_builder,
            r.engine_validator_builder == self.engine_validator_builder,
    {
        let ComponentsBuilder {
            pool_builder,
            payload_builder,
            network_builder,
            executor_builder,
            consensus_builder,
            engine_validator_builder,
            _marker,
        } = self;
        let executor_builder = match executor_builder {
            Some(p) => Some(f(p)),
            None => None,
        };
        ComponentsBuilder {
            pool_builder,
            payload_builder,
            network_builder,
            executor_builder,
            consensus_builder,
            engine_validator_builder,
            _marker,
        }
    }

    /// Apply a function to the configured consensus builder, if any.
    pub fn map_consensus<F: FnOnce(ConsB) -> ConsB>(self, f: F) -> (r: Self)
        requires
            self.consensus_builder matches Some(p) ==> f.requires((p,)),
        ensures
            (match (self.consensus_builder, r.consensus_builder) {
                (Some(p), Some(q)) => f.ensures((p,), q),
                (None, None) => true,
                _ => false,
            }),
            r.pool_builder == self.pool_builder,
            r.payload_builder == self.payload_builder,
            r.network_builder == self.network_builder,
            r.executor_builder == self.executor_builder,
            r.engine_validator_builder == self.engine_validator_builder,
    {
        let ComponentsBuilder {
            pool_builder,
            payload_builder,
            network_builder,
            executor_builder,
            consensus_builder,
            engine_validator_builder,
            _marker,
        } = self;
        let consensus_builder = match consensus_builder {
            Some(p) => Some(f(p)),
            None => None,
        };
        ComponentsBuilder {
            pool_builder,
            payload_builder,
            network_builder,
            executor_builder,
            consensus_builder,
            engine_validator_builder,
            _marker,
        }
    }

    /// Configures the pool builder.
    pub fn pool<PB>(self, pool_builder: PB) -> (r: ComponentsBuilder<
        Node,
        PB,
        PayloadB,
        NetworkB,
        ExecB,
        ConsB,
        EVB,
    >)
        ensures
            r.pool_builder == Some(pool_builder),
            r.payload_builder == self.payload_builder,
            r.network_builder == self.network_builder,
            r.executor_builder == self.executor_builder,
            r.consensus_builder == self.consensus_builder,
            r.engine_validator_builder == self.engine_validator_builder,
    {
        let ComponentsBuilder {
            pool_builder: _,
            payload_builder,
            network_builder,
            executor_builder,
            consensus_builder,
            engine_validator_builder,
            _marker,
        } = self;
        ComponentsBuilder {
            pool_builder: Some(pool_builder),
            payload_builder,
            network_builder,
            executor_builder,
            consensus_builder,
            engine_validator_builder,
            _marker,
        }
    }

    /// Configures the network builder.
    pub fn network<NB>(self, network_builder: NB) -> (r: ComponentsBuilder<
        Node,
        PoolB,
        PayloadB,
        NB,
        ExecB,
        ConsB,
        EVB,
    >)
        ensures
            r.network_builder == Some(network_builder),
            r.pool_builder == self.pool_builder,
            r.payload_builder == self.payload_builder,
            r.executor_builder == self.executor_builder,
            r.consensus_builder == self.consensus_builder,
            r.engine_validator_builder == self.engine_validator_builder,
    {
        let ComponentsBuilder {
            pool_builder,
            payload_builder,
            network_builder: _,
            executor_builder,
            consensus_builder,
            engine_validator_builder,
            _marker,
        } = self;
        ComponentsBuilder {
            pool_builder,
            payload_builder,
            network_builder: Some(network_builder),
            executor_builder,
            consensus_builder,
            engine_validator_builder,
            _marker,
        }
    }

    /// Configures the payload builder.
    pub fn payload<PB>(self, payload_builder: PB) -> (r: ComponentsBuilder<
        Node,
        PoolB,
        PB,
        NetworkB,
        ExecB,
        ConsB,
        EVB,
    >)
        ensures
            r.payload_builder == Some(payload_builder),
            r.pool_builder == self.pool_builder,
            r.network_builder == self.network_builder,
            r.executor_builder == self.executor_builder,
            r.consensus_builder == self.consensus_builder,
            r.engine_validator_builder == self.engine_validator_builder,
    {
        let ComponentsBuilder {
            pool_builder,
            payload_builder: _,
            network_builder,
            executor_builder,
            consensus_builder,
            engine_validator_builder,
            _marker,
        } = self;
        ComponentsBuilder {
            pool_builder,
            payload_builder: Some(payload_builder),
            network_builder,
            executor_builder,
            consensus_builder,
            engine_validator_builder,
            _marker,
        }
    }

    /// Configures the executor builder.
    pub fn executor<EB>(self, executor_builder: EB) -> (r: ComponentsBuilder<
        Node,
        PoolB,
        PayloadB,
        NetworkB,
        EB,
        ConsB,
        EVB,
    >)
        ensures
            r.executor_builder == Some(executor_builder),
            r.pool_builder == self.pool_builder,
            r.payload_builder == self.payload_builder,
            r.network_builder == self.network_builder,
            r.consensus_builder == self.consensus_builder,
            r.engine_validator_builder == self.engine_validator_builder,
    {
        let ComponentsBuilder {
            pool_builder,
            payload_builder,
            network_builder,
            executor_builder: _,
            consensus_builder,
            engine_validator_builder,
            _marker,
        } = self;
        ComponentsBuilder {
            pool_builder,
            payload_builder,
            network_builder,
            executor_builder: Some(executor_builder),
            consensus_builder,
            engine_validator_builder,
            _marker,
        }
    }

    /// Configures the consensus builder.
    pub fn consensus<CB>(self, consensus_builder: CB) -> (r: ComponentsBuilder<
        Node,
        PoolB,
        PayloadB,
        NetworkB,
        ExecB,
        CB,
        EVB,
    >)
        ensures
            r.consensus_builder == Some(consensus_builder),
            r.pool_builder == self.pool_builder,
            r.payload_builder == self.payload_builder,
            r.network_builder == self.network_builder,
            r.executor_builder == self.executor_builder,
            r.engine_validator_builder == self.engine_validator_builder,
    {
        let ComponentsBuilder {
            pool_builder,
            payload_builder,
            network_builder,
            executor_builder,
            consensus_builder: _,
            engine_validator_builder,
            _marker,
        } = self;
        ComponentsBuilder {
            pool_builder,
            payload_builder,
            network_builder,
            executor_builder,
            consensus_builder: Some(consensus_builder),
            engine_validator_builder,
            _marker,
        }
    }

    /// Configures the engine validator builder.
    pub fn engine_validator<EngineVB>(self, engine_validator_builder: EngineVB) -> (r:
        ComponentsBuilder<Node, PoolB, PayloadB, NetworkB, ExecB, ConsB, EngineVB>)
        ensures
            r.engine_validator_builder == Some(engine_validator_builder),
            r.pool_builder == self.pool_builder,
            r.payload_builder == self.payload_builder,
            r.network_builder == self.network_builder,
            r.executor_builder == self.executor_builder,
            r.consensus_builder == self.consensus_builder,
    {
        let ComponentsBuilder {
            pool_builder,
            payload_builder,
            network_builder,
            executor_builder,
            consensus_builder,
            engine_validator_builder: _,
            _marker,
        } = self;
        ComponentsBuilder {
            pool_builder,
            payload_builder,
            network_builder,
            executor_builder,
            consensus_builder,
            engine_validator_builder: Some(engine_validator_builder),
            _marker,
        }
    }
}

impl Default for ComponentsBuilder<(), (), (), (), (), (), ()> {
    /// A builder with every component slot empty.
    fn default() -> (r: Self)
        ensures
            r.pool_builder is None,
            r.payload_builder is None,
            r.network_builder is None,
            r.executor_builder is None,
            r.consensus_builder is None,
            r.engine_validator_builder is None,
    {
        ComponentsBuilder {
            pool_builder: None,
            payload_builder: None,
            network_builder: None,
            executor_builder: None,
            consensus_builder: None,
            engine_validator_builder: None,
            _marker: PhantomData,
        }
    }
}

impl<Node, PoolB, PayloadB, NetworkB, ExecB, ConsB, EVB> NodeComponentsBuilder<Node> for
    ComponentsBuilder<Node, PoolB, PayloadB, NetworkB, ExecB, ConsB, EVB> {
    type Components = Components<PoolB, PayloadB, NetworkB, ExecB, ConsB, EVB>;

    /// Finalizing succeeds exactly when every slot is configured, yielding the
    /// configured components; otherwise it fails naming the first empty slot
    /// in build order.
    open spec fn spec_build_components(self) -> Result<
        Self::Components,
        ComponentsBuilderError,
    > {
        if self.executor_builder is None {
            Err(ComponentsBuilderError::MissingExecutorBuilder)
        } else if self.pool_builder is None {
            Err(ComponentsBuilderError::MissingPoolBuilder)
        } else if self.network_builder is None {
            Err(ComponentsBuilderError::MissingNetworkBuilder)
        } else if self.payload_builder is None {
            Err(ComponentsBuilderError::MissingPayloadBuilder)
        } else if self.consensus_builder is None {
            Err(ComponentsBuilderError::MissingConsensusBuilder)
        } else if self.engine_validator_builder is None {
            Err(ComponentsBuilderError::MissingEngineValidatorBuilder)
        } else {
            Ok(
                Components {
                    transaction_pool: self.pool_builder->0,
                    payload_builder: self.payload_builder->0,
                    network: self.network_builder->0,
                    executor: self.executor_builder->0,
                    consensus: self.consensus_builder->0,
                    engine_validator: self.engine_validator_builder->0,
                },
            )
        }
    }

    fn build_components(self) -> (r: Result<Self::Components, ComponentsBuilderError>) {
        let ComponentsBuilder {
            pool_builder,
            payload_builder,
            network_builder,
            executor_builder,
            consensus_builder,
            engine_validator_builder,
            _marker,
        } = self;
        let executor = match executor_builder {
            Some(executor) => executor,
            None => {
                return Err(ComponentsBuilderError::MissingExecutorBuilder);
            },
        };
        let transaction_pool = match pool_builder {
            Some(pool) => pool,
            None => {
                return Err(ComponentsBuilderError::MissingPoolBuilder);
            },
        };
        let network = match network_builder {
            Some(network) => network,
            None => {
                return Err(ComponentsBuilderError::MissingNetworkBuilder);
            },
        };
        let payload_builder = match payload_builder {
            Some(payload) => payload,
            None => {
                return Err(ComponentsBuilderError::MissingPayloadBuilder);
            },
        };
        let consensus = match consensus_builder {
            Some(consensus) => consensus,
            None => {
                return Err(ComponentsBuilderError::MissingConsensusBuilder);
            },
        };
        let engine_validator = match engine_validator_builder {
            Some(validator) => validator,
            None => {
                return Err(ComponentsBuilderError::MissingEngineValidatorBuilder);
            },
        };
        Ok(
            Components {
                transaction_pool,
                payload_builder,
                network,
                executor,
                consensus,
                engine_validator,
            },
        )
    }
}

} // verus!
