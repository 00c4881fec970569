//! The factory: the protocol's fee and treasury, and the registry of the
//! raffle instances set up through it.

use vstd::prelude::*;
use crate::address::Address;
use crate::host::Env;
use crate::instance::{Error, RaffleConfig, RandomnessSource};

verus! {

/// The state of the factory as the contracts speak of it.
pub struct FactoryState {
    /// Who may change the configuration; none before `init`.
    pub admin: Option<Address>,
    /// The code from which instances are made.
    pub wasm_hash: Seq<u8>,
    /// The protocol's fee in basis points.
    pub protocol_fee_bp: u32,
    /// Who receives the protocol's fees; none before `init`.
    pub treasury: Option<Address>,
    /// The instances set up so far, oldest first.
    pub instances: Seq<Address>,
}

/// The factory of raffle instances.
#[derive(Debug)]
pub struct RaffleFactory {
    pub admin: Option<Address>,
    pub wasm_hash: Vec<u8>,
    pub protocol_fee_bp: u32,
    pub treasury: Option<Address>,
    pub instances: Vec<Address>,
}

impl View for RaffleFactory {
    type V = FactoryState;

    open spec fn view(&self) -> FactoryState {
        FactoryState {
            admin: self.admin,
            wasm_hash: self.wasm_hash@,
            protocol_fee_bp: self.protocol_fee_bp,
            treasury: self.treasury,
            instances: self.instances@,
        }
    }
}

/// The terms of a new raffle with the factory's fee and treasury stamped on.
pub open spec fn stamped(
    s: FactoryState,
    description: String,
    end_time: u64,
    max_tickets: u32,
    allow_multiple: bool,
    ticket_price: i128,
    payment_token: Address,
    prize_amount: i128,
    randomness_source: RandomnessSource,
    oracle_address: Option<Address>,
) -> RaffleConfig {
    RaffleConfig {
        description,
        end_time,
        max_tickets,
        allow_multiple,
        ticket_price,
        payment_token,
        prize_amount,
        randomness_source,
        oracle_address,
        protocol_fee_bp: s.protocol_fee_bp,
        treasury_address: s.treasury,
    }
}

/// Why `set_config` fails, if it does.
pub open spec fn set_config_error(s: FactoryState, env: Env) -> Option<Error> {
    match s.admin {
        None => Some(Error::NotInitialized),
        Some(admin) => if !env.authorizes(admin) {
            Some(Error::NotAuthorized)
        } else {
            None
        },
    }
}

/// Why `create_raffle` fails, if it does.
pub open spec fn create_raffle_error(s: FactoryState, env: Env, creator: Address) -> Option<Error> {
    if !env.authorizes(creator) {
        Some(Error::NotAuthorized)
    } else if s.admin is None || s.treasury is None {
        Some(Error::NotInitialized)
    } else {
        None
    }
}

impl RaffleFactory {
    /// Whether `init` has run.
    pub open spec fn initialized(&self) -> bool {
        self.admin is Some
    }

    /// The factory before `init`.
    pub fn new() -> (f: Self)
        ensures
            !f.initialized(),
            f@ == (FactoryState {
                admin: None,
                wasm_hash: Seq::empty(),
                protocol_fee_bp: 0,
                treasury: None,
                instances: Seq::empty(),
            }),
    {
        RaffleFactory {
            admin: None,
            wasm_hash: Vec::new(),
            protocol_fee_bp: 0,
            treasury: None,
            instances: Vec::new(),
        }
    }

    /// Whether `init` has run.
    pub fn is_initialized(&self) -> (b: bool)
        ensures
            b == self.initialized(),
    {
        self.admin.is_some()
    }

    /// Sets the factory up, once: the admin, the code of the instances, the
    /// fee and the treasury, and an empty registry.
    pub fn init(
        &mut self,
        admin: Address,
        wasm_hash: Vec<u8>,
        protocol_fee_bp: u32,
        treasury: Address,
    ) -> (res: Result<(), Error>)
        ensures
            match res {
                Ok(_) => !old(self).initialized() && final(self)@ == (FactoryState {
                    admin: Some(admin),
                    wasm_hash: wasm_hash@,
                    protocol_fee_bp,
                    treasury: Some(treasury),
                    instances: Seq::empty(),
                }),
                Err(e) => old(self).initialized() && e == Error::AlreadyInitialized && final(self)@
                    == old(self)@,
            },
    {
        if self.admin.is_some() {
            return Err(Error::AlreadyInitialized);
        }
        self.admin = Some(admin);
        self.wasm_hash = wasm_hash;
        self.instances = Vec::new();
        self.protocol_fee_bp = protocol_fee_bp;
        self.treasury = Some(treasury);
        Ok(())
    }

    /// Changes the fee and the treasury. Only the admin may.
    pub fn set_config(&mut self, env: &Env, protocol_fee_bp: u32, treasury: Address) -> (res: Result<
        (),
        Error,
    >)
        ensures
            match res {
                Ok(_) => set_config_error(old(self)@, *env) is None && final(self)@ == (FactoryState {
                    protocol_fee_bp,
                    treasury: Some(treasury),
                    ..old(self)@
                }),
                Err(e) => set_config_error(old(self)@, *env) == Some(e) && final(self)@ == old(
                    self,
                )@,
            },
    {
        match self.admin {
            None => {
                return Err(Error::NotInitialized);
            },
            Some(admin) => {
                if !env.is_authorized_by(&admin) {
                    return Err(Error::NotAuthorized);
                }
            },
        }
        self.protocol_fee_bp = protocol_fee_bp;
        self.treasury = Some(treasury);
        Ok(())
    }

    /// Registers a new raffle instance for `creator`, who must have
    /// authorized the invocation, and hands back the instance's identity
    /// with the terms to initialize it with: the terms asked for, with the
    /// factory's current fee and treasury stamped on. The instance goes by
    /// the identity of its creator.
    pub fn create_raffle(
        &mut self,
        env: &Env,
        creator: Address,
        description: String,
        end_time: u64,
        max_tickets: u32,
        allow_multiple: bool,
        ticket_price: i128,
        payment_token: Address,
        prize_amount: i128,
        randomness_source: RandomnessSource,
        oracle_address: Option<Address>,
    ) -> (res: Result<(Address, RaffleConfig), Error>)
        ensures
            match res {
                Ok((instance, config)) => {
                    &&& create_raffle_error(old(self)@, *env, creator) is None
                    &&& instance == creator
                    &&& config == stamped(
                        old(self)@,
                        description,
                        end_time,
                        max_tickets,
                        allow_multiple,
                        ticket_price,
                        payment_token,
                        prize_amount,
                        randomness_source,
                        oracle_address,
                    )
                    &&& final(self)@ == (FactoryState {
                        instances: old(self)@.instances.push(creator),
                        ..old(self)@
                    })
                },
                Err(e) => create_raffle_error(old(self)@, *env, creator) == Some(e) && final(self)@
                    == old(self)@,
            },
    {
        if !env.is_authorized_by(&creator) {
            return Err(Error::NotAuthorized);
        }
        if self.admin.is_none() {
            return Err(Error::NotInitialized);
        }
        let treasury = match self.treasury {
            Some(treasury) => treasury,
            None => {
                return Err(Error::NotInitialized);
            },
        };
        let config = RaffleConfig {
            description,
            end_time,
            max_tickets,
            allow_multiple,
            ticket_price,
            payment_token,
            prize_amount,
            randomness_source,
            oracle_address,
            protocol_fee_bp: self.protocol_fee_bp,
            treasury_address: Some(treasury),
        };
        self.instances.push(creator);
        Ok((creator, config))
    }

    /// The instances set up so far, oldest first.
    pub fn get_raffles(&self) -> (instances: Vec<Address>)
        ensures
            instances@ == self@.instances,
    {
        let mut instances: Vec<Address> = Vec::new();
        let mut i: usize = 0;
        while i < self.instances.len()
            invariant
                i <= self.instances.len(),
                instances@ == self.instances@.take(i as int),
            decreases self.instances.len() - i,
        {
            instances.push(self.instances[i]);
            i = i + 1;
            proof {
                assert(instances@ =~= self.instances@.take(i as int));
            }
        }
        proof {
            assert(self.instances@.take(i as int) =~= self.instances@);
        }
        instances
    }
}

/// Only the admin changes the configuration, and a raffle is registered
/// only for a creator who signed for it.
pub proof fn lemma_factory_access(s: FactoryState, env: Env, creator: Address)
    ensures
        s.admin != Some(env.invoker) ==> set_config_error(s, env) is Some,
        creator != env.invoker ==> create_raffle_error(s, env, creator) == Some(Error::NotAuthorized),
{
}

} // verus!
