//! The outbound dispatch protocol: the two external calls a dispatch
//! orders, the order they are issued in, and what a finished run leaves
//! observable.
//!
//! A dispatch issues two calls: first a gas payment to the gas service,
//! then a contract call to the gateway.  The two run as one all-or-nothing
//! unit of work: either both complete, or the whole dispatch is undone and
//! neither call has any lasting effect.

use vstd::prelude::*;

use crate::error::ContractError;

verus! {

/// The call that forwards the attached payment to the gas service, asking
/// it to register gas for one cross-chain contract call.
pub struct GasServiceCall {
    /// The address of the gas service the call is directed to.
    pub to: Vec<u8>,
    pub destination_chain: Vec<u8>,
    pub destination_address: Vec<u8>,
    pub payload: Vec<u8>,
    /// Where the gas service sends refunds: always the caller of the
    /// dispatch, never the dispatching contract itself.
    pub refund_address: Vec<u8>,
    /// The native-currency value carried by the call: the entire payment
    /// the caller attached to the dispatch.
    pub payment: u128,
}

/// The call that announces the cross-chain message to the gateway.  It
/// carries no payment.
pub struct GatewayCall {
    /// The address of the gateway the call is directed to.
    pub to: Vec<u8>,
    pub destination_chain: Vec<u8>,
    pub destination_address: Vec<u8>,
    pub payload: Vec<u8>,
}

/// The mathematical content of a [`GasServiceCall`].
pub ghost struct GasCallView {
    pub to: Seq<u8>,
    pub destination_chain: Seq<u8>,
    pub destination_address: Seq<u8>,
    pub payload: Seq<u8>,
    pub refund_address: Seq<u8>,
    pub payment: u128,
}

/// The mathematical content of a [`GatewayCall`].
pub ghost struct GatewayCallView {
    pub to: Seq<u8>,
    pub destination_chain: Seq<u8>,
    pub destination_address: Seq<u8>,
    pub payload: Seq<u8>,
}

impl View for GasServiceCall {
    type V = GasCallView;

    open spec fn view(&self) -> GasCallView {
        GasCallView {
            to: self.to@,
            destination_chain: self.destination_chain@,
            destination_address: self.destination_address@,
            payload: self.payload@,
            refund_address: self.refund_address@,
            payment: self.payment,
        }
    }
}

impl View for GatewayCall {
    type V = GatewayCallView;

    open spec fn view(&self) -> GatewayCallView {
        GatewayCallView {
            to: self.to@,
            destination_chain: self.destination_chain@,
            destination_address: self.destination_address@,
            payload: self.payload@,
        }
    }
}

/// One of the two external calls of a dispatch, as an observer sees it.
pub ghost enum OutboundCallView {
    GasPayment(GasCallView),
    ContractCall(GatewayCallView),
}

/// Everything a validated dispatch asks the outside world to do.  The run
/// performs `gas_payment` first and `contract_call` second, and the second
/// is attempted only once the first has succeeded.
pub struct DispatchPlan {
    pub gas_payment: GasServiceCall,
    pub contract_call: GatewayCall,
}

/// The mathematical content of a [`DispatchPlan`].
pub ghost struct PlanView {
    pub gas_payment: GasCallView,
    pub contract_call: GatewayCallView,
}

impl View for DispatchPlan {
    type V = PlanView;

    open spec fn view(&self) -> PlanView {
        PlanView { gas_payment: self.gas_payment@, contract_call: self.contract_call@ }
    }
}

impl PlanView {
    /// The two calls in the order the dispatcher issues them: gas first,
    /// gateway second, so a relayer that sees the gateway's event always
    /// finds the matching gas allocation already in place.
    pub open spec fn call_order(self) -> Seq<OutboundCallView> {
        seq![
            OutboundCallView::GasPayment(self.gas_payment),
            OutboundCallView::ContractCall(self.contract_call),
        ]
    }

    /// The calls whose effects remain observable once a run of this plan
    /// has settled: all of them when both calls succeeded, none otherwise.
    pub open spec fn observable_calls(self, gas_ok: bool, gateway_ok: bool) -> Seq<
        OutboundCallView,
    > {
        if gas_ok && gateway_ok {
            self.call_order()
        } else {
            Seq::empty()
        }
    }

    /// Whether this plan is exactly what one dispatch against state with the
    /// given service addresses must order: the full payment to the gas
    /// service with the caller as refund address, and the unpaid gateway
    /// call, both carrying the same destination tuple.
    pub open spec fn is_dispatch_of(
        self,
        gateway_address: Seq<u8>,
        gas_receiver_address: Seq<u8>,
        destination_chain: Seq<u8>,
        destination_address: Seq<u8>,
        payload: Seq<u8>,
        caller: Seq<u8>,
        payment: u128,
    ) -> bool {
        &&& self.gas_payment == (GasCallView {
            to: gas_receiver_address,
            destination_chain: destination_chain,
            destination_address: destination_address,
            payload: payload,
            refund_address: caller,
            payment: payment,
        })
        &&& self.contract_call == (GatewayCallView {
            to: gateway_address,
            destination_chain: destination_chain,
            destination_address: destination_address,
            payload: payload,
        })
    }
}

impl DispatchPlan {
    /// Settles one run of this plan, given whether each call succeeded (the
    /// gateway call is attempted only after the gas call succeeded).  The
    /// dispatch as a whole succeeds exactly when both calls did; any failure
    /// undoes the entire run, so no effect of either call survives it.
    pub fn settle(&self, gas_ok: bool, gateway_ok: bool) -> (r: Result<(), ContractError>)
        ensures
            r is Ok <==> gas_ok && gateway_ok,
            r matches Err(e) ==> e == ContractError::ExternalCallFailure,
            r is Ok ==> self@.observable_calls(gas_ok, gateway_ok) == self@.call_order(),
            r is Err ==> self@.observable_calls(gas_ok, gateway_ok) == Seq::<
                OutboundCallView,
            >::empty(),
    {
        if gas_ok && gateway_ok {
            Ok(())
        } else {
            Err(ContractError::ExternalCallFailure)
        }
    }
}

/// The gas service as the dispatcher consumes it: assumed to register an
/// attached payment against a destination tuple for later gas
/// reimbursement, and to refund the call's refund address on failure or
/// excess.  Implementations live outside the library (an on-chain proxy, a
/// test double); nothing is promised of them, so a dispatch must hold
/// under every outcome they report.
pub trait GasService {
    /// Hands one gas payment to the service, carrying the call's payment
    /// as attached value.  Reports whether the service accepted it.
    fn pay_native_gas_for_contract_call(&mut self, call: &GasServiceCall) -> bool;
}

/// The gateway as the dispatcher consumes it: assumed to make an announced
/// call durably observable to the off-chain relayers that execute it on
/// the destination chain.  As with [`GasService`], nothing is promised of
/// an implementation.
pub trait Gateway {
    /// Announces one cross-chain call to the gateway, with no payment.
    /// Reports whether the gateway recorded it.
    fn call_contract(&mut self, call: &GatewayCall) -> bool;
}

/// Performs the two calls of a plan in their required order: the gas
/// payment first, the gateway call second, and the second only once the
/// first succeeded.  Either refusal fails the dispatch as a whole with
/// [`ContractError::ExternalCallFailure`]; the surrounding transactional
/// host is then expected to undo any accepted gas payment, as
/// [`DispatchPlan::settle`] states.
pub fn run_dispatch<G: GasService, W: Gateway>(
    plan: &DispatchPlan,
    gas_service: &mut G,
    gateway: &mut W,
) -> (r: Result<(), ContractError>)
    ensures
        r matches Err(e) ==> e == ContractError::ExternalCallFailure,
{
    if !gas_service.pay_native_gas_for_contract_call(&plan.gas_payment) {
        return Err(ContractError::ExternalCallFailure);
    }
    if !gateway.call_contract(&plan.contract_call) {
        return Err(ContractError::ExternalCallFailure);
    }
    Ok(())
}

/// Ordering: whenever a settled run left any effect at all, it left exactly
/// the two calls of the plan, and the gas payment stands before the gateway
/// call.
pub proof fn lemma_gas_paid_before_gateway_call(plan: PlanView, gas_ok: bool, gateway_ok: bool)
    ensures
        plan.observable_calls(gas_ok, gateway_ok).len() != 0 ==> {
            &&& plan.observable_calls(gas_ok, gateway_ok) == plan.call_order()
            &&& plan.call_order().len() == 2
            &&& plan.call_order()[0] is GasPayment
            &&& plan.call_order()[1] is ContractCall
        },
{
}

/// Atomicity: when the gateway call fails, the gas payment leaves no
/// observable effect behind — no gas is ever stranded with the gas service
/// for a call that never reached the gateway.
pub proof fn lemma_failed_gateway_reverts_gas_payment(plan: PlanView, gas_ok: bool)
    ensures
        plan.observable_calls(gas_ok, false) == Seq::<OutboundCallView>::empty(),
{
}

} // verus!
