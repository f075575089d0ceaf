//! The contract itself: two service addresses fixed at construction, a
//! single received-message slot, the outbound dispatcher and the inbound
//! receiver.

use vstd::prelude::*;

use crate::error::ContractError;
use crate::message::clone_bytes;
use crate::message::MessageView;
use crate::message::ReceivedValue;
use crate::outbound::DispatchPlan;
use crate::outbound::GasServiceCall;
use crate::outbound::GatewayCall;

verus! {

/// The mathematical content of the contract's persisted state: the two
/// addresses written at construction and the last received message, if any.
pub ghost struct ContractState {
    pub gateway_address: Seq<u8>,
    pub gas_receiver_address: Seq<u8>,
    pub received_value: Option<MessageView>,
}

impl ContractState {
    /// The state after an inbound message overwrote the slot.  The
    /// addresses never change; the slot holds exactly the new message.
    pub open spec fn with_received(self, m: MessageView) -> ContractState {
        ContractState {
            gateway_address: self.gateway_address,
            gas_receiver_address: self.gas_receiver_address,
            received_value: Some(m),
        }
    }
}

/// The relay endpoint.  Constructed once with the addresses of the gateway
/// and the gas service; thereafter it validates and plans outbound
/// dispatches and records inbound messages.
pub struct HelloWorldContract {
    gateway_address: Vec<u8>,
    gas_receiver_address: Vec<u8>,
    received_value: Option<ReceivedValue>,
}

impl View for HelloWorldContract {
    type V = ContractState;

    closed spec fn view(&self) -> ContractState {
        ContractState {
            gateway_address: self.gateway_address@,
            gas_receiver_address: self.gas_receiver_address@,
            received_value: match self.received_value {
                Some(m) => Some(m@),
                None => None,
            },
        }
    }
}

impl HelloWorldContract {
    /// Constructs the contract, writing both service addresses.  The
    /// received-message slot starts empty.  There is no update path for
    /// the addresses afterwards.
    pub fn init(gateway_address: Vec<u8>, gas_receiver: Vec<u8>) -> (c: HelloWorldContract)
        ensures
            c@ == (ContractState {
                gateway_address: gateway_address@,
                gas_receiver_address: gas_receiver@,
                received_value: None,
            }),
    {
        HelloWorldContract {
            gateway_address,
            gas_receiver_address: gas_receiver,
            received_value: None,
        }
    }

    /// The gateway address written at construction.
    pub fn get_gateway_address(&self) -> (a: &Vec<u8>)
        ensures
            a@ == self@.gateway_address,
    {
        &self.gateway_address
    }

    /// The gas-service address written at construction.
    pub fn get_gas_receiver_address(&self) -> (a: &Vec<u8>)
        ensures
            a@ == self@.gas_receiver_address,
    {
        &self.gas_receiver_address
    }

    /// Validates an outbound dispatch and orders its two external calls.
    ///
    /// A dispatch carries an attached payment, which must be strictly
    /// positive: otherwise it fails with [`ContractError::InvalidPayment`]
    /// and orders nothing.  The destination tuple is opaque and never
    /// inspected.  On success the plan forwards the entire payment to the
    /// gas service with `caller` as the refund address, then announces the
    /// same tuple to the gateway; the contract's own state is untouched.
    pub fn set_remote_value(
        &self,
        destination_chain: &Vec<u8>,
        destination_address: &Vec<u8>,
        payload: &Vec<u8>,
        payment: u128,
        caller: Vec<u8>,
    ) -> (r: Result<DispatchPlan, ContractError>)
        ensures
            r is Err <==> payment == 0,
            r matches Err(e) ==> e == ContractError::InvalidPayment,
            r matches Ok(plan) ==> plan@.is_dispatch_of(
                self@.gateway_address,
                self@.gas_receiver_address,
                destination_chain@,
                destination_address@,
                payload@,
                caller@,
                payment,
            ),
    {
        if payment == 0 {
            return Err(ContractError::InvalidPayment);
        }
        let gas_payment = GasServiceCall {
            to: clone_bytes(&self.gas_receiver_address),
            destination_chain: clone_bytes(destination_chain),
            destination_address: clone_bytes(destination_address),
            payload: clone_bytes(payload),
            refund_address: caller,
            payment,
        };
        let contract_call = GatewayCall {
            to: clone_bytes(&self.gateway_address),
            destination_chain: clone_bytes(destination_chain),
            destination_address: clone_bytes(destination_address),
            payload: clone_bytes(payload),
        };
        Ok(DispatchPlan { gas_payment, contract_call })
    }

    /// Records an inbound message, unconditionally overwriting the single
    /// received-message slot with the given tuple.  No validation, no
    /// merge, no history.
    pub fn execute(&mut self, source_chain: Vec<u8>, source_address: Vec<u8>, payload: Vec<u8>)
        ensures
            final(self)@ == old(self)@.with_received(
                (MessageView {
                    source_chain: source_chain@,
                    source_address: source_address@,
                    payload: payload@,
                }),
            ),
    {
        self.received_value = Some(ReceivedValue { source_chain, source_address, payload });
    }

    /// The last received message.  Fails with
    /// [`ContractError::UninitializedRead`] exactly when no message has
    /// ever been received.
    pub fn get_received_message(&self) -> (r: Result<&ReceivedValue, ContractError>)
        ensures
            match r {
                Ok(m) => self@.received_value == Some(m@),
                Err(e) => e == ContractError::UninitializedRead && self@.received_value is None,
            },
    {
        match &self.received_value {
            Some(m) => Ok(m),
            None => Err(ContractError::UninitializedRead),
        }
    }
}

/// Last write wins: a second inbound message replaces the first entirely,
/// so the state afterwards carries no trace of the first.
pub proof fn lemma_receive_overwrites(s: ContractState, a: MessageView, b: MessageView)
    ensures
        s.with_received(a).with_received(b) == s.with_received(b),
{
}

} // verus!
