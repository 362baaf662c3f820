//! A paid service and a ledger, both simulated, run against the guards: the
//! service asks a guard for the charge, the ledger performs it, and the
//! ledger's reply is settled into the result of the call.

use candid::Nat;
use papi_guard::account::{principal2account, Account, SUB_ACCOUNT_ZERO};
use papi_guard::caller::{CallerPaysIcrc2Tokens, PatronPaysIcrc2Tokens, PaymentType};
use papi_guard::cycles::cycles_ledger_canister_id;
use papi_guard::error::PaymentError;
use papi_guard::guards::any::AnyPaymentGuard;
use papi_guard::guards::attached_cycles::AttachedCyclesPayment;
use papi_guard::guards::caller_pays_icrc2_tokens::CallerPaysIcrc2TokensPaymentGuard;
use papi_guard::guards::icrc2_cycles::Icrc2CyclesPaymentGuard;
use papi_guard::guards::{Charge, PaymentContext, PaymentGuard, PaymentGuard2};
use papi_guard::ledger::{
    LedgerReply, TransferFromArgs, TransferFromError, WithdrawFromArgs, WithdrawFromError,
};
use papi_guard::principal::Principal;
use papi_guard::state::{payment_guard, InitArgs};
use std::collections::HashMap;

/// The fee that the ledger takes for an approval and for a transaction.
const LEDGER_FEE: u128 = 100_000_000;

type AccountKey = (Vec<u8>, [u8; 32]);

fn key(account: &Account) -> AccountKey {
    (
        account.owner.as_slice().to_vec(),
        account.subaccount.unwrap_or(SUB_ACCOUNT_ZERO),
    )
}

fn principal(text: &str) -> Principal {
    Principal::from_slice(candid::Principal::from_text(text).unwrap().as_slice())
}

fn main_account(owner: Principal) -> Account {
    Account {
        owner,
        subaccount: None,
    }
}

/// An ICRC-2 ledger that can also withdraw to a canister's cycles balance.
struct Ledger {
    canister_id: Principal,
    balances: HashMap<AccountKey, u128>,
    allowances: HashMap<(AccountKey, AccountKey), u128>,
    blocks: u64,
}

impl Ledger {
    fn new(canister_id: Principal) -> Self {
        Ledger {
            canister_id,
            balances: HashMap::new(),
            allowances: HashMap::new(),
            blocks: 0,
        }
    }

    fn canister_id(&self) -> Principal {
        self.canister_id
    }

    fn deposit(&mut self, to: Account, amount: u128) {
        *self.balances.entry(key(&to)).or_insert(0) += amount;
    }

    fn icrc_1_balance_of(&self, account: &Account) -> Nat {
        Nat::from(self.balances.get(&key(account)).copied().unwrap_or(0))
    }

    fn icrc_2_approve(&mut self, caller: Principal, spender: Account, amount: u128) {
        let from = key(&main_account(caller));
        let balance = self.balances.entry(from.clone()).or_insert(0);
        assert!(*balance >= LEDGER_FEE, "the approver cannot pay the fee");
        *balance -= LEDGER_FEE;
        self.allowances.insert((from, key(&spender)), amount);
        self.blocks += 1;
    }

    /// Takes `amount` and the fee from `from`, under the allowance given to
    /// `spender`. Says how much allowance or balance there is where it is not
    /// enough.
    fn pull(&mut self, from: &Account, spender: &Account, amount: u128) -> Result<Nat, (bool, u128)> {
        let total = amount + LEDGER_FEE;
        let allowance = self
            .allowances
            .get(&(key(from), key(spender)))
            .copied()
            .unwrap_or(0);
        if allowance < total {
            return Err((true, allowance));
        }
        let balance = self.balances.get(&key(from)).copied().unwrap_or(0);
        if balance < total {
            return Err((false, balance));
        }
        self.balances.insert(key(from), balance - total);
        self.allowances
            .insert((key(from), key(spender)), allowance - total);
        self.blocks += 1;
        Ok(Nat::from(self.blocks))
    }

    fn withdraw_from(
        &mut self,
        caller: Principal,
        args: &WithdrawFromArgs,
        cycles: &mut HashMap<Vec<u8>, u128>,
    ) -> LedgerReply<WithdrawFromError> {
        let spender = Account {
            owner: caller,
            subaccount: args.spender_subaccount,
        };
        LedgerReply::Completed(match self.pull(&args.from, &spender, args.amount) {
            Ok(block) => {
                *cycles.entry(args.to.as_slice().to_vec()).or_insert(0) += args.amount;
                Ok(block)
            }
            Err((true, allowance)) => Err(WithdrawFromError::InsufficientAllowance {
                allowance: Nat::from(allowance),
            }),
            Err((false, balance)) => Err(WithdrawFromError::InsufficientFunds {
                balance: Nat::from(balance),
            }),
        })
    }

    fn icrc_2_transfer_from(
        &mut self,
        caller: Principal,
        args: &TransferFromArgs,
    ) -> LedgerReply<TransferFromError> {
        let spender = Account {
            owner: caller,
            subaccount: args.spender_subaccount,
        };
        LedgerReply::Completed(match self.pull(&args.from, &spender, args.amount) {
            Ok(block) => {
                self.deposit(args.to, args.amount);
                Ok(block)
            }
            Err((true, allowance)) => Err(TransferFromError::InsufficientAllowance {
                allowance: Nat::from(allowance),
            }),
            Err((false, balance)) => Err(TransferFromError::InsufficientFunds {
                balance: Nat::from(balance),
            }),
        })
    }
}

/// The methods of the paid service.
#[derive(Debug, Copy, Clone, Eq, PartialEq)]
enum PaidMethods {
    Cost1bIcrc2Cycles,
    CallerPays1bIcrc2Tokens,
    Cost1b,
}

impl PaidMethods {
    fn cost(&self) -> u128 {
        1_000_000_000
    }
}

struct TestSetup {
    /// The ledger. A call to any other ledger does not complete.
    ledger: Ledger,
    /// The cycles balance of each canister.
    cycles: HashMap<Vec<u8>, u128>,
    /// The canister that provides the paid methods.
    paid_service: Principal,
    /// The guard that the paid service was started with.
    guard: AnyPaymentGuard<5>,
    user: Principal,
    user2: Principal,
    users: [Principal; 5],
    unauthorized_user: Principal,
}

impl TestSetup {
    const USER_INITIAL_BALANCE: u128 = 100_000_000_000;

    fn default() -> Self {
        let ledger = Ledger::new(cycles_ledger_canister_id());
        let paid_service = Principal::from_slice(&[0, 0, 0, 0, 0, 0, 0, 7, 1, 1]);
        let guard = payment_guard(InitArgs {
            ledger: ledger.canister_id(),
        });
        let mut setup = TestSetup {
            ledger,
            cycles: HashMap::new(),
            paid_service,
            guard,
            user: principal("xzg7k-thc6c-idntg-knmtz-2fbhh-utt3e-snqw6-5xph3-54pbp-7axl5-tae"),
            user2: principal("jwhyn-xieqy-drmun-h7uci-jzycw-vnqhj-s62vl-4upsg-cmub3-vakaq-rqe"),
            users: [
                principal("s2xin-cwqnw-sjvht-gp553-an54g-2rhlc-z4c5d-xz5iq-irnbi-sadik-qae"),
                principal("dmvof-2tilt-3xmvh-c7tbj-n3whk-k2i6b-2s2ge-xoo3d-wjuw3-ijpuw-eae"),
                principal("kjerd-nj73t-u3hhp-jcj4d-g7w56-qlrvb-gguta-45yve-336zs-sunxa-zqe"),
                principal("zxhav-yshtx-vhzs2-nvuu3-jrq66-bidn2-put3y-ulwcf-2gb2o-ykfco-sae"),
                principal("nggqm-p5ozz-i5hfv-bejmq-2gtow-4dtqw-vjatn-4b4yw-s5mzs-i46su-6ae"),
            ],
            unauthorized_user: principal(
                "rg3gz-22tjp-jh7hl-migkq-vb7in-i2ylc-6umlc-dtbug-v6jgc-uo24d-nqe",
            ),
        };
        setup.fund_user(Self::USER_INITIAL_BALANCE);
        setup
    }

    fn fund_user(&mut self, amount: u128) {
        let initial_balance = self.user_balance();
        self.ledger.deposit(main_account(self.user), amount);
        assert_eq!(self.user_balance(), initial_balance + amount);
    }

    fn user_balance(&self) -> Nat {
        self.ledger.icrc_1_balance_of(&main_account(self.user))
    }

    fn assert_user_balance_eq(&self, expected_balance: u128, message: String) {
        assert_eq!(self.user_balance(), Nat::from(expected_balance), "{}", message);
    }

    fn cycle_balance(&self, canister: Principal) -> u128 {
        self.cycles
            .get(canister.as_slice())
            .copied()
            .unwrap_or(0)
    }

    fn user_approves_payment_for_paid_service(&mut self, amount: u128) {
        let spender = main_account(self.paid_service);
        self.ledger.icrc_2_approve(self.user, spender, amount);
    }

    /// Performs the charge that a guard decided on, and settles it.
    fn collect(&mut self, decision: Result<Charge, PaymentError>) -> Result<(), PaymentError> {
        match decision? {
            Charge::AttachedCycles { amount } => {
                *self
                    .cycles
                    .entry(self.paid_service.as_slice().to_vec())
                    .or_insert(0) += amount;
                Ok(())
            }
            Charge::Withdraw(withdrawal) => {
                let reply = if withdrawal.ledger == self.ledger.canister_id() {
                    self.ledger
                        .withdraw_from(self.paid_service, &withdrawal.args, &mut self.cycles)
                } else {
                    LedgerReply::Unreachable
                };
                withdrawal.settle(reply)
            }
            Charge::Transfer(transfer) => {
                let reply = if transfer.ledger == self.ledger.canister_id() {
                    self.ledger
                        .icrc_2_transfer_from(self.paid_service, &transfer.args)
                } else {
                    LedgerReply::Unreachable
                };
                transfer.settle(reply)
            }
        }
    }

    fn context(&self, caller: Principal, cycles_available: u128) -> PaymentContext {
        PaymentContext {
            own_canister_id: self.paid_service,
            caller,
            cycles_available,
        }
    }

    /// A method that costs 1000 cycles, attached to the call.
    fn cost_1000_cycles(&mut self, caller: Principal, attached: u128) -> Result<String, PaymentError> {
        let context = self.context(caller, attached);
        let decision = AttachedCyclesPayment::default().deduct(context, 1000);
        self.collect(decision)?;
        Ok("Yes, you paid 1000 cycles!".to_string())
    }

    /// Calls a paid method without attached cycles.
    fn call_paid_service(
        &mut self,
        caller: Principal,
        method: PaidMethods,
        payment: Option<PaymentType>,
    ) -> Result<String, PaymentError> {
        let context = self.context(caller, 0);
        let fee = method.cost();
        match method {
            PaidMethods::Cost1bIcrc2Cycles => {
                let decision = Icrc2CyclesPaymentGuard::new(context).deduct(context, fee);
                self.collect(decision)?;
                Ok("Yes, you paid 1 billion cycles!".to_string())
            }
            PaidMethods::CallerPays1bIcrc2Tokens => {
                let guard = CallerPaysIcrc2TokensPaymentGuard {
                    ledger: cycles_ledger_canister_id(),
                };
                let decision = guard.deduct(context, fee);
                self.collect(decision)?;
                Ok("Yes, you paid 1 billion tokens!".to_string())
            }
            PaidMethods::Cost1b => {
                let payment = payment.expect("this method takes the way of paying");
                let decision = self.guard.deduct(context, payment, fee);
                self.collect(decision)?;
                Ok("Yes, you paid 1 billion cycles!".to_string())
            }
        }
    }

    fn service_ledger_balance(&self) -> Nat {
        self.ledger
            .icrc_1_balance_of(&main_account(self.paid_service))
    }
}

#[test]
fn attached_cycles_test_setup_works() {
    let _setup = TestSetup::default();
}

#[test]
fn icrc2_icrc2_test_setup_works() {
    let setup = TestSetup::default();
    assert_eq!(setup.ledger.canister_id(), cycles_ledger_canister_id());
}

#[test]
fn test_environment_icrc2_test_setup_works() {
    let setup = TestSetup::default();
    setup.assert_user_balance_eq(
        TestSetup::USER_INITIAL_BALANCE,
        "Test setup failed when providing the user with funds".to_string(),
    );
}

#[test]
fn attached_cycles_v2_test_setup_works() {
    let setup = TestSetup::default();
    assert_eq!(setup.cycle_balance(setup.paid_service), 0);
}

#[test]
fn attached_cycles_inter_canister_call_succeeds_with_sufficient_cycles_only() {
    let mut setup = TestSetup::default();
    let customer = setup.user;
    for cycles in 995u128..1005 {
        let before = setup.cycle_balance(setup.paid_service);
        let result = setup.cost_1000_cycles(customer, cycles);
        if cycles < 1000 {
            assert_eq!(
                result,
                Err(PaymentError::InsufficientFunds {
                    needed: 1000,
                    available: cycles
                }),
                "Should have failed with only {} cycles attached",
                cycles
            );
            assert_eq!(setup.cycle_balance(setup.paid_service), before);
        } else {
            assert_eq!(
                result,
                Ok("Yes, you paid 1000 cycles!".to_string()),
                "Should have succeeded with {} cycles attached",
                cycles
            );
            assert_eq!(setup.cycle_balance(setup.paid_service), before + 1000);
        }
    }
}

#[test]
fn attached_cycles_v2_inter_canister_call_succeeds_with_sufficient_cycles_only() {
    let mut setup = TestSetup::default();
    let cycles = 1000000u128;
    let customer = setup.user;
    let result = setup.cost_1000_cycles(customer, cycles);
    assert_eq!(result, Ok("Yes, you paid 1000 cycles!".to_string()));
    assert_eq!(setup.cycle_balance(setup.paid_service), 1000);
}

#[test]
fn caller_pays_by_icrc2() {
    let mut setup = TestSetup::default();
    let mut expected_user_balance = TestSetup::USER_INITIAL_BALANCE;
    let method = PaidMethods::Cost1bIcrc2Cycles;
    setup.user_approves_payment_for_paid_service(method.cost() + LEDGER_FEE);
    expected_user_balance -= LEDGER_FEE;
    setup.assert_user_balance_eq(
        expected_user_balance,
        "Expected the user balance to be charged for the ICRC2 approve".to_string(),
    );
    let service_canister_cycles_before = setup.cycle_balance(setup.paid_service);
    let response = setup.call_paid_service(setup.user, method, None);
    assert_eq!(
        response,
        Ok("Yes, you paid 1 billion cycles!".to_string()),
        "Should have succeeded with an accurate prepayment",
    );
    let service_canister_cycles_after = setup.cycle_balance(setup.paid_service);
    assert!(
        service_canister_cycles_after > service_canister_cycles_before,
        "The service canister needs to charge more to cover its cycle cost!  Loss: {}",
        service_canister_cycles_before - service_canister_cycles_after
    );
    expected_user_balance -= method.cost() + LEDGER_FEE;
    setup.assert_user_balance_eq(
        expected_user_balance,
        "Expected the user balance to be the initial balance minus the ledger and API fees"
            .to_string(),
    );
}

#[test]
fn caller_pays_icrc2_cycles_caller_pays_by_named_icrc2() {
    let mut setup = TestSetup::default();
    let mut expected_user_balance = TestSetup::USER_INITIAL_BALANCE;
    let method = PaidMethods::Cost1b;
    setup.user_approves_payment_for_paid_service(method.cost() + LEDGER_FEE);
    expected_user_balance -= LEDGER_FEE;
    setup.assert_user_balance_eq(
        expected_user_balance,
        "Expected the user balance to be charged for the ICRC2 approve".to_string(),
    );
    let service_canister_cycles_before = setup.cycle_balance(setup.paid_service);
    let response =
        setup.call_paid_service(setup.user, method, Some(PaymentType::CallerPaysIcrc2Cycles));
    assert_eq!(
        response,
        Ok("Yes, you paid 1 billion cycles!".to_string()),
        "Should have succeeded with an accurate prepayment",
    );
    let service_canister_cycles_after = setup.cycle_balance(setup.paid_service);
    assert!(
        service_canister_cycles_after > service_canister_cycles_before,
        "The service canister needs to charge more to cover its cycle cost!  Loss: {}",
        service_canister_cycles_before - service_canister_cycles_after
    );
    expected_user_balance -= method.cost() + LEDGER_FEE;
    setup.assert_user_balance_eq(
        expected_user_balance,
        "Expected the user balance to be the initial balance minus the ledger and API fees"
            .to_string(),
    );
}

/// Runs a method that pays by withdrawal from the caller with approvals near
/// the cost.
fn withdrawal_works_with_large_enough_approval(method: PaidMethods) {
    let mut setup = TestSetup::default();
    let mut expected_user_balance = TestSetup::USER_INITIAL_BALANCE;
    for payment in (method.cost() - 5)..(method.cost() + 5) {
        for _repetition in 0..2 {
            setup.user_approves_payment_for_paid_service(payment + LEDGER_FEE);
            expected_user_balance -= LEDGER_FEE;
            setup.assert_user_balance_eq(
                expected_user_balance,
                "Expected the user balance to be charged for the ICRC2 approve".to_string(),
            );
            let service_canister_cycles_before = setup.cycle_balance(setup.paid_service);
            let response = setup.call_paid_service(setup.user, method, None);
            if payment < method.cost() {
                assert_eq!(
                    response,
                    Err(PaymentError::LedgerWithdrawFromError {
                        ledger: setup.ledger.canister_id(),
                        error: WithdrawFromError::InsufficientAllowance {
                            allowance: Nat::from(payment + LEDGER_FEE),
                        }
                    }),
                    "Should have failed with only {} cycles attached",
                    payment
                );
                setup.assert_user_balance_eq(
                    expected_user_balance,
                    "Expected the user balance to be unchanged by a failed ICRC2".to_string(),
                );
            } else {
                assert_eq!(
                    response,
                    Ok("Yes, you paid 1 billion cycles!".to_string()),
                    "Should have succeeded with {} cycles attached",
                    payment
                );
                let service_canister_cycles_after = setup.cycle_balance(setup.paid_service);
                assert!(
                    service_canister_cycles_after > service_canister_cycles_before,
                    "The service canister needs to charge more to cover its cycle cost!  Loss: {}",
                    service_canister_cycles_before - service_canister_cycles_after
                );
                expected_user_balance -= method.cost() + LEDGER_FEE;
                setup.assert_user_balance_eq(
                    expected_user_balance,
                    "Expected the user balance to be the initial balance minus the ledger and API fees"
                        .to_string(),
                );
            }
        }
    }
}

#[test]
fn caller_pays_icrc2_cycles_works_with_large_enough_approval() {
    withdrawal_works_with_large_enough_approval(PaidMethods::Cost1bIcrc2Cycles);
}

#[test]
fn icrc2_caller_pays_icrc2_tokens() {
    withdrawal_works_with_large_enough_approval(PaidMethods::Cost1bIcrc2Cycles);
}

/// Pays for several calls with one approval.
fn several_calls_with_a_single_approval(
    method: PaidMethods,
    payment: Option<PaymentType>,
    repetitions: u32,
) {
    let mut setup = TestSetup::default();
    let mut expected_user_balance = TestSetup::USER_INITIAL_BALANCE;
    setup.user_approves_payment_for_paid_service(expected_user_balance);
    expected_user_balance -= LEDGER_FEE;
    setup.assert_user_balance_eq(
        expected_user_balance,
        "Expected the user balance to be charged for the ICRC2 approve".to_string(),
    );
    for _repetition in 0..repetitions {
        let service_canister_cycles_before = setup.cycle_balance(setup.paid_service);
        let response = setup.call_paid_service(setup.user, method, payment);
        assert_eq!(
            response,
            Ok("Yes, you paid 1 billion cycles!".to_string()),
            "Should have succeeded with a generous prepayment",
        );
        let service_canister_cycles_after = setup.cycle_balance(setup.paid_service);
        assert!(
            service_canister_cycles_after > service_canister_cycles_before,
            "The service canister needs to charge more to cover its cycle cost!  Loss: {}",
            service_canister_cycles_before - service_canister_cycles_after
        );
        expected_user_balance -= method.cost() + LEDGER_FEE;
        setup.assert_user_balance_eq(
            expected_user_balance,
            "Expected the user balance to be the initial balance minus the ledger and API fees"
                .to_string(),
        );
    }
}

#[test]
fn caller_pays_icrc2_cycles_supports_multiple_calls_with_a_single_approval() {
    several_calls_with_a_single_approval(PaidMethods::Cost1bIcrc2Cycles, None, 5);
}

#[test]
fn caller_pays_by_icrc2_prepayment() {
    several_calls_with_a_single_approval(PaidMethods::Cost1bIcrc2Cycles, None, 5);
}

#[test]
fn icrc2_caller_pays_by_named_icrc2() {
    several_calls_with_a_single_approval(
        PaidMethods::Cost1b,
        Some(PaymentType::CallerPaysIcrc2Cycles),
        5,
    );
}

#[test]
fn caller_needs_to_approve() {
    let mut setup = TestSetup::default();
    let method = PaidMethods::Cost1b;
    let response =
        setup.call_paid_service(setup.user, method, Some(PaymentType::CallerPaysIcrc2Cycles));
    assert_eq!(
        response,
        Err(PaymentError::LedgerWithdrawFromError {
            ledger: setup.ledger.canister_id(),
            error: WithdrawFromError::InsufficientAllowance {
                allowance: Nat::default(),
            }
        }),
        "Should have failed without an ICRC2 approve"
    );
    setup.assert_user_balance_eq(
        TestSetup::USER_INITIAL_BALANCE,
        "The user should not have been charged".to_string(),
    );
}

#[test]
fn caller_pays_icrc2_tokens_caller_pays_icrc2_tokens() {
    let mut setup = TestSetup::default();
    let mut expected_user_balance = TestSetup::USER_INITIAL_BALANCE;
    let method = PaidMethods::CallerPays1bIcrc2Tokens;
    setup.user_approves_payment_for_paid_service(method.cost() + LEDGER_FEE);
    expected_user_balance -= LEDGER_FEE;
    setup.assert_user_balance_eq(
        expected_user_balance,
        "Expected the user balance to be charged for the ICRC2 approve".to_string(),
    );
    let response = setup.call_paid_service(setup.user, method, None);
    assert_eq!(
        response,
        Ok("Yes, you paid 1 billion tokens!".to_string()),
        "Should have succeeded with an accurate prepayment",
    );
    expected_user_balance -= method.cost() + LEDGER_FEE;
    setup.assert_user_balance_eq(
        expected_user_balance,
        "Expected the user balance to be the initial balance minus the ledger and API fees"
            .to_string(),
    );
    assert_eq!(
        setup.service_ledger_balance(),
        Nat::from(method.cost()),
        "Expected the service balance to be the cost of the API call"
    );
}

#[test]
fn caller_pays_icrc2_tokens_explicitly() {
    let mut setup = TestSetup::default();
    let mut expected_user_balance = TestSetup::USER_INITIAL_BALANCE;
    let method = PaidMethods::Cost1b;
    setup.user_approves_payment_for_paid_service(method.cost() + LEDGER_FEE);
    expected_user_balance -= LEDGER_FEE;
    setup.assert_user_balance_eq(
        expected_user_balance,
        "Expected the user balance to be charged for the ICRC2 approve".to_string(),
    );
    {
        let response = setup.call_paid_service(
            setup.user,
            method,
            Some(PaymentType::CallerPaysIcrc2Tokens(CallerPaysIcrc2Tokens {
                ledger: cycles_ledger_canister_id(),
            })),
        );
        assert_eq!(
            response,
            Ok("Yes, you paid 1 billion cycles!".to_string()),
            "Should have succeeded with an accurate prepayment",
        );
    }
    {
        expected_user_balance -= method.cost() + LEDGER_FEE;
        setup.assert_user_balance_eq(
            expected_user_balance,
            "Expected the user balance to be the initial balance minus the ledger and API fees"
                .to_string(),
        );
    }
    assert_eq!(
        setup.service_ledger_balance(),
        Nat::from(method.cost()),
        "Expected the service balance to be the cost of the API call"
    );
}

#[test]
fn user_pays_for_user2() {
    let mut setup = TestSetup::default();
    let mut expected_user_balance = TestSetup::USER_INITIAL_BALANCE;
    let patron = setup.user;
    let caller = setup.user2;
    let method = PaidMethods::Cost1b;
    let payment_arg = PaymentType::PatronPaysIcrc2Cycles(Account {
        owner: setup.user,
        subaccount: None,
    });
    {
        let spender = Account {
            owner: setup.paid_service,
            subaccount: Some(principal2account(&caller)),
        };
        setup
            .ledger
            .icrc_2_approve(patron, spender, method.cost() + LEDGER_FEE);
        expected_user_balance -= LEDGER_FEE;
        setup.assert_user_balance_eq(
            expected_user_balance,
            "Expected the user==patron balance to be charged for the ICRC2 approve".to_string(),
        );
    }
    {
        let response =
            setup.call_paid_service(setup.unauthorized_user, method, Some(payment_arg));
        assert_eq!(
            response,
            Err(PaymentError::LedgerWithdrawFromError {
                ledger: setup.ledger.canister_id(),
                error: WithdrawFromError::InsufficientAllowance {
                    allowance: Nat::from(0u32),
                }
            }),
            "Unapproved users should not be able to make calls",
        );
        setup.assert_user_balance_eq(
            expected_user_balance,
            "The user==patron should not have been charged for unauthorized spending attempts"
                .to_string(),
        );
    }
    {
        let service_canister_cycles_before = setup.cycle_balance(setup.paid_service);
        let response = setup.call_paid_service(caller, method, Some(payment_arg));
        assert_eq!(
            response,
            Ok("Yes, you paid 1 billion cycles!".to_string()),
            "Should have succeeded for caller {:?} with patron {:?}.",
            caller,
            patron,
        );
        let service_canister_cycles_after = setup.cycle_balance(setup.paid_service);
        assert_eq!(
            service_canister_cycles_after,
            service_canister_cycles_before + method.cost(),
            "The service canister should have received the fee"
        );
        expected_user_balance -= method.cost() + LEDGER_FEE;
        setup.assert_user_balance_eq(
            expected_user_balance,
            "Expected the user==patron balance to be the initial balance minus the ledger and API fees"
                .to_string(),
        );
    }
}

/// A patron pays for a crowd: each caller can spend what was approved for
/// it, and no more.
fn patron_pays_for_other_users(payment_arg: PaymentType, by_transfer: bool) {
    let mut setup = TestSetup::default();
    let mut expected_user_balance = TestSetup::USER_INITIAL_BALANCE;
    let method = PaidMethods::Cost1b;
    let api_fee = 1_000_000_000u128;
    let repetitions = 3;
    let unapproved = |ledger: Principal| {
        if by_transfer {
            PaymentError::LedgerTransferFromError {
                ledger,
                error: TransferFromError::InsufficientAllowance {
                    allowance: Nat::from(0u32),
                },
            }
        } else {
            PaymentError::LedgerWithdrawFromError {
                ledger,
                error: WithdrawFromError::InsufficientAllowance {
                    allowance: Nat::from(0u32),
                },
            }
        }
    };
    for caller in setup.users {
        let spender = Account {
            owner: setup.paid_service,
            subaccount: Some(principal2account(&caller)),
        };
        setup
            .ledger
            .icrc_2_approve(setup.user, spender, (api_fee + LEDGER_FEE) * repetitions);
        expected_user_balance -= LEDGER_FEE;
        setup.assert_user_balance_eq(
            expected_user_balance,
            "Expected the user balance to be charged for the ICRC2 approve".to_string(),
        );
    }
    {
        let response =
            setup.call_paid_service(setup.unauthorized_user, method, Some(payment_arg));
        assert_eq!(
            response,
            Err(unapproved(setup.ledger.canister_id())),
            "Unapproved users should not be able to make calls",
        );
        setup.assert_user_balance_eq(
            expected_user_balance,
            "The user should not have been charged for unauthorized spending attempts".to_string(),
        );
    }
    let active_users = [setup.users[2], setup.users[3], setup.users[4]];
    for repetition in 0..repetitions {
        for caller in active_users {
            let response = setup.call_paid_service(caller, method, Some(payment_arg));
            assert_eq!(
                response,
                Ok("Yes, you paid 1 billion cycles!".to_string()),
                "Should have succeeded for user {:?} on repetition {repetition}",
                caller,
            );
            expected_user_balance -= api_fee + LEDGER_FEE;
            setup.assert_user_balance_eq(
                expected_user_balance,
                "Expected the user balance to be the initial balance minus the ledger and API fees"
                    .to_string(),
            );
        }
    }
    for caller in active_users {
        let response = setup.call_paid_service(caller, method, Some(payment_arg));
        assert_eq!(
            response,
            Err(unapproved(setup.ledger.canister_id())),
            "Should not be able to exceed the budget",
        );
        setup.assert_user_balance_eq(
            expected_user_balance,
            "The user should not have been charged for additional spending attempts".to_string(),
        );
    }
}

#[test]
fn user_pays_for_other_users() {
    let patron = principal("xzg7k-thc6c-idntg-knmtz-2fbhh-utt3e-snqw6-5xph3-54pbp-7axl5-tae");
    patron_pays_for_other_users(
        PaymentType::PatronPaysIcrc2Cycles(Account {
            owner: patron,
            subaccount: None,
        }),
        false,
    );
}

#[test]
fn patron_pays_by_named_icrc2() {
    let patron = principal("xzg7k-thc6c-idntg-knmtz-2fbhh-utt3e-snqw6-5xph3-54pbp-7axl5-tae");
    patron_pays_for_other_users(
        PaymentType::PatronPaysIcrc2Tokens(PatronPaysIcrc2Tokens {
            ledger: cycles_ledger_canister_id(),
            patron: Account {
                owner: patron,
                subaccount: None,
            },
        }),
        true,
    );
}

#[test]
fn user_pays_tokens_for_user2() {
    let mut setup = TestSetup::default();
    let mut expected_user_balance = TestSetup::USER_INITIAL_BALANCE;
    let patron = setup.user;
    let caller = setup.user2;
    let method = PaidMethods::Cost1b;
    let payment_arg = PaymentType::PatronPaysIcrc2Tokens(PatronPaysIcrc2Tokens {
        ledger: setup.ledger.canister_id(),
        patron: Account {
            owner: setup.user,
            subaccount: None,
        },
    });
    {
        let spender = Account {
            owner: setup.paid_service,
            subaccount: Some(principal2account(&caller)),
        };
        setup
            .ledger
            .icrc_2_approve(patron, spender, method.cost() + LEDGER_FEE);
        expected_user_balance -= LEDGER_FEE;
        setup.assert_user_balance_eq(
            expected_user_balance,
            "Expected the user==patron balance to be charged for the ICRC2 approve".to_string(),
        );
    }
    {
        let response =
            setup.call_paid_service(setup.unauthorized_user, method, Some(payment_arg));
        assert_eq!(
            response,
            Err(PaymentError::LedgerTransferFromError {
                ledger: setup.ledger.canister_id(),
                error: TransferFromError::InsufficientAllowance {
                    allowance: Nat::from(0u32),
                }
            }),
            "Users sho have not paid should not be able to make calls",
        );
        setup.assert_user_balance_eq(
            expected_user_balance,
            "The user==patron should not have been charged for unauthorized spending attempts"
                .to_string(),
        );
    }
    {
        {
            let response = setup.call_paid_service(caller, method, Some(payment_arg));
            assert_eq!(
                response,
                Ok("Yes, you paid 1 billion cycles!".to_string()),
                "Should have succeeded for caller {:?} with patron {:?}.",
                caller,
                patron,
            );
        }
        {
            expected_user_balance -= method.cost() + LEDGER_FEE;
            setup.assert_user_balance_eq(
                expected_user_balance,
                "Expected the user==patron balance to be the initial balance minus the ledger and API fees"
                    .to_string(),
            );
        }
        assert_eq!(
            setup.service_ledger_balance(),
            Nat::from(method.cost()),
            "Expected the service balance to be the cost of the API call"
        );
    }
}

#[test]
fn user_cannot_specify_vendor_as_patron() {
    let mut setup = TestSetup::default();
    let caller = setup.user;
    let patron = setup.paid_service;
    let method = PaidMethods::Cost1b;
    let payment_arg = PaymentType::PatronPaysIcrc2Tokens(PatronPaysIcrc2Tokens {
        ledger: setup.ledger.canister_id(),
        patron: Account {
            owner: patron,
            subaccount: None,
        },
    });
    {
        let response = setup.call_paid_service(caller, method, Some(payment_arg));
        assert_eq!(
            response,
            Err(PaymentError::InvalidPatron),
            "The caller should not be able to specify the vendor as patron.",
        );
    }
}

#[test]
fn approval_for_another_caller_is_of_no_use() {
    let mut setup = TestSetup::default();
    let method = PaidMethods::Cost1b;
    let patron = main_account(setup.user);
    let spender = Account {
        owner: setup.paid_service,
        subaccount: Some(principal2account(&setup.user2)),
    };
    setup
        .ledger
        .icrc_2_approve(setup.user, spender, method.cost() + LEDGER_FEE);
    let balance = setup.user_balance();
    let stranger = setup.users[0];
    let response = setup.call_paid_service(
        stranger,
        method,
        Some(PaymentType::PatronPaysIcrc2Cycles(patron)),
    );
    assert_eq!(
        response,
        Err(PaymentError::LedgerWithdrawFromError {
            ledger: setup.ledger.canister_id(),
            error: WithdrawFromError::InsufficientAllowance {
                allowance: Nat::from(0u32),
            }
        }),
    );
    assert_eq!(setup.user_balance(), balance);
    // Naming the other caller's subaccount in the patron's account does not help either.
    let response = setup.call_paid_service(
        stranger,
        method,
        Some(PaymentType::PatronPaysIcrc2Cycles(Account {
            owner: setup.user,
            subaccount: Some(principal2account(&setup.user2)),
        })),
    );
    assert!(matches!(
        response,
        Err(PaymentError::LedgerWithdrawFromError { .. })
    ));
    assert_eq!(setup.user_balance(), balance);
}

#[test]
fn unreachable_ledger_moves_nothing() {
    let mut setup = TestSetup::default();
    let elsewhere = Principal::from_slice(&[9, 9, 9]);
    setup.guard = payment_guard(InitArgs { ledger: elsewhere });
    let method = PaidMethods::Cost1b;
    setup.user_approves_payment_for_paid_service(method.cost() + LEDGER_FEE);
    let balance = setup.user_balance();
    let response = setup.call_paid_service(
        setup.user,
        method,
        Some(PaymentType::CallerPaysIcrc2Tokens(CallerPaysIcrc2Tokens {
            ledger: elsewhere,
        })),
    );
    assert_eq!(
        response,
        Err(PaymentError::LedgerUnreachable { ledger: elsewhere })
    );
    assert_eq!(setup.user_balance(), balance);
    assert_eq!(setup.service_ledger_balance(), Nat::from(0u32));
    assert_eq!(setup.cycle_balance(setup.paid_service), 0);
}
