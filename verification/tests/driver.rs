use std::cell::RefCell;
use std::rc::Rc;

use hello_world::contract::HelloWorldContract;
use hello_world::error::ContractError;
use hello_world::outbound::run_dispatch;
use hello_world::outbound::GasService;
use hello_world::outbound::GasServiceCall;
use hello_world::outbound::Gateway;
use hello_world::outbound::GatewayCall;

struct GasServiceDouble {
    accept: bool,
    log: Rc<RefCell<Vec<String>>>,
    received: Vec<(Vec<u8>, Vec<u8>, Vec<u8>, Vec<u8>, u128)>,
}

impl GasService for GasServiceDouble {
    fn pay_native_gas_for_contract_call(&mut self, call: &GasServiceCall) -> bool {
        self.log.borrow_mut().push(String::from("gas"));
        if self.accept {
            self.received.push((
                call.destination_chain.clone(),
                call.destination_address.clone(),
                call.payload.clone(),
                call.refund_address.clone(),
                call.payment,
            ));
        }
        self.accept
    }
}

struct GatewayDouble {
    accept: bool,
    log: Rc<RefCell<Vec<String>>>,
    received: Vec<(Vec<u8>, Vec<u8>, Vec<u8>)>,
}

impl Gateway for GatewayDouble {
    fn call_contract(&mut self, call: &GatewayCall) -> bool {
        self.log.borrow_mut().push(String::from("gateway"));
        if self.accept {
            self.received.push((
                call.destination_chain.clone(),
                call.destination_address.clone(),
                call.payload.clone(),
            ));
        }
        self.accept
    }
}

fn doubles(
    gas_accepts: bool,
    gateway_accepts: bool,
) -> (GasServiceDouble, GatewayDouble, Rc<RefCell<Vec<String>>>) {
    let log = Rc::new(RefCell::new(Vec::new()));
    let gas = GasServiceDouble {
        accept: gas_accepts,
        log: Rc::clone(&log),
        received: Vec::new(),
    };
    let gateway = GatewayDouble {
        accept: gateway_accepts,
        log: Rc::clone(&log),
        received: Vec::new(),
    };
    (gas, gateway, log)
}

fn example_plan() -> hello_world::outbound::DispatchPlan {
    let c = HelloWorldContract::init(b"G".to_vec(), b"S".to_vec());
    c.set_remote_value(
        &b"eth".to_vec(),
        &b"0xABC".to_vec(),
        &b"hi".to_vec(),
        100,
        b"C".to_vec(),
    )
    .unwrap()
}

#[test]
fn driver_pays_gas_before_calling_gateway() {
    let (mut gas, mut gateway, log) = doubles(true, true);
    let r = run_dispatch(&example_plan(), &mut gas, &mut gateway);
    assert!(r.is_ok());
    assert_eq!(*log.borrow(), vec![String::from("gas"), String::from("gateway")]);
    assert_eq!(
        gas.received,
        vec![(
            b"eth".to_vec(),
            b"0xABC".to_vec(),
            b"hi".to_vec(),
            b"C".to_vec(),
            100
        )]
    );
    assert_eq!(
        gateway.received,
        vec![(b"eth".to_vec(), b"0xABC".to_vec(), b"hi".to_vec())]
    );
}

#[test]
fn driver_never_reaches_gateway_when_gas_payment_fails() {
    let (mut gas, mut gateway, log) = doubles(false, true);
    let r = run_dispatch(&example_plan(), &mut gas, &mut gateway);
    assert!(matches!(r, Err(ContractError::ExternalCallFailure)));
    assert_eq!(*log.borrow(), vec![String::from("gas")]);
    assert!(gateway.received.is_empty());
}

#[test]
fn driver_fails_the_dispatch_when_gateway_refuses() {
    let (mut gas, mut gateway, _log) = doubles(true, false);
    let r = run_dispatch(&example_plan(), &mut gas, &mut gateway);
    assert!(matches!(r, Err(ContractError::ExternalCallFailure)));
}
