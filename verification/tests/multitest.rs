use cosmwasm_std::testing::{MockApi, MockStorage};
use cosmwasm_std::{
    coin, to_json_binary, Addr, Binary, Deps, DepsMut, Empty, Event, Response as HostResponse,
    StdResult, Uint128,
};
use cw20::{BalanceResponse, Cw20Coin, Cw20ExecuteMsg, Cw20QueryMsg, Cw20ReceiveMsg};
use cw_multi_test::{
    App, AppBuilder, AppResponse, BankKeeper, ContractWrapper, DistributionKeeper, Executor,
    FailingModule, GovFailingModule, IbcFailingModule, StakeKeeper, StargateAccepting, WasmKeeper,
};
use cw_storage_plus::Item;
use oraiswap::router::ExecuteMsg as RouterExecuteMsg;
use treasury::asset::{asset_info_from_string, AssetInfo, SwapOperation};
use treasury::contract::{execute, instantiate};
use treasury::message::{CosmosMsg, Response, WasmMsg};
use treasury::mock::Cw20Hook;
use treasury::msg::{
    CollectFeeRequirement, Env, ExecuteMsg, HostAnswers, InstantiateMsg, MessageInfo,
};
use treasury::state::{DistributeTarget, State};
use treasury::ContractError;

type Chain = App<
    BankKeeper,
    MockApi,
    MockStorage,
    FailingModule<Empty, Empty, Empty>,
    WasmKeeper<Empty, Empty>,
    StakeKeeper,
    DistributionKeeper,
    IbcFailingModule,
    GovFailingModule,
    StargateAccepting,
>;

const INITIAL_BALANCE: u128 = 1000000000000000000u128;
const TREASURY: &str = "treasury";
const USDC_OF_ROUTER: Item<Addr> = Item::new("usdc");

fn store_cw20(app: &mut Chain, owner: &Addr, initial: u128) -> Addr {
    let code = app.store_code(Box::new(ContractWrapper::new(
        cw20_base::contract::execute,
        cw20_base::contract::instantiate,
        cw20_base::contract::query,
    )));
    app.instantiate_contract(
        code,
        owner.clone(),
        &cw20_base::msg::InstantiateMsg {
            name: "token".to_string(),
            symbol: "TOKEN".to_string(),
            decimals: 6,
            initial_balances: vec![Cw20Coin { address: owner.to_string(), amount: initial.into() }],
            mint: None,
            marketing: None,
        },
        &[],
        "cw20",
        None,
    )
    .unwrap()
}

fn ping_pong_execute(
    _deps: DepsMut,
    _env: cosmwasm_std::Env,
    _info: cosmwasm_std::MessageInfo,
    msg: RouterExecuteMsg,
) -> StdResult<HostResponse> {
    match msg {
        RouterExecuteMsg::Receive(_) => Ok(HostResponse::new().add_attribute("action", "ping")),
        _ => Ok(HostResponse::default()),
    }
}

fn ping_pong_instantiate(
    _deps: DepsMut,
    _env: cosmwasm_std::Env,
    _info: cosmwasm_std::MessageInfo,
    _msg: Empty,
) -> StdResult<HostResponse> {
    Ok(HostResponse::default())
}

fn no_query(_deps: Deps, _env: cosmwasm_std::Env, _msg: Empty) -> StdResult<Binary> {
    Ok(Binary::default())
}

fn store_ping_pong(app: &mut Chain, sender: &Addr) -> Addr {
    let code = app.store_code(Box::new(ContractWrapper::new(
        ping_pong_execute,
        ping_pong_instantiate,
        no_query,
    )));
    app.instantiate_contract(code, sender.clone(), &Empty {}, &[], "ping_pong", None).unwrap()
}

// swaps one for one into usdc
fn router_execute(
    deps: DepsMut,
    _env: cosmwasm_std::Env,
    info: cosmwasm_std::MessageInfo,
    msg: RouterExecuteMsg,
) -> StdResult<HostResponse> {
    let (recipient, amount) = match msg {
        RouterExecuteMsg::Receive(Cw20ReceiveMsg { sender, amount, .. }) => (sender, amount),
        RouterExecuteMsg::ExecuteSwapOperations { to, .. } => {
            (to.unwrap().to_string(), info.funds[0].amount)
        }
        _ => return Ok(HostResponse::default()),
    };
    let pay = cosmwasm_std::WasmMsg::Execute {
        contract_addr: USDC_OF_ROUTER.load(deps.storage)?.to_string(),
        msg: to_json_binary(&Cw20ExecuteMsg::Transfer { recipient, amount })?,
        funds: vec![],
    };
    Ok(HostResponse::new().add_message(pay).add_attribute("action", "execute_swap_operations"))
}

fn router_instantiate(
    deps: DepsMut,
    _env: cosmwasm_std::Env,
    _info: cosmwasm_std::MessageInfo,
    usdc: Addr,
) -> StdResult<HostResponse> {
    USDC_OF_ROUTER.save(deps.storage, &usdc)?;
    Ok(HostResponse::default())
}

fn store_router(app: &mut Chain, sender: &Addr, usdc: &Addr) -> Addr {
    let code = app.store_code(Box::new(ContractWrapper::new(
        router_execute,
        router_instantiate,
        no_query,
    )));
    app.instantiate_contract(code, sender.clone(), usdc, &[], "router", None).unwrap()
}

fn cw20_balance(app: &Chain, token: &Addr, of: &Addr) -> Uint128 {
    let res: BalanceResponse = app
        .wrap()
        .query_wasm_smart(token, &Cw20QueryMsg::Balance { address: of.to_string() })
        .unwrap();
    res.balance
}

fn cw20_transfer(app: &mut Chain, token: &Addr, from: &Addr, to: &Addr, amount: u128) {
    app.execute_contract(
        from.clone(),
        token.clone(),
        &Cw20ExecuteMsg::Transfer { recipient: to.to_string(), amount: amount.into() },
        &[],
    )
    .unwrap();
}

fn to_host(msg: &CosmosMsg) -> cosmwasm_std::CosmosMsg {
    match msg {
        CosmosMsg::Wasm(WasmMsg::Execute { contract_addr, msg, funds }) => {
            cosmwasm_std::CosmosMsg::Wasm(cosmwasm_std::WasmMsg::Execute {
                contract_addr: contract_addr.clone(),
                msg: Binary::from(msg.clone()),
                funds: funds.iter().map(|c| coin(c.amount, c.denom.clone())).collect(),
            })
        }
        CosmosMsg::Stargate { type_url, value } => cosmwasm_std::CosmosMsg::Stargate {
            type_url: type_url.clone(),
            value: Binary::from(value.clone()),
        },
    }
}

// the host runs the batch in order, on behalf of the treasury
fn run_batch(app: &mut Chain, response: &Response) -> Vec<AppResponse> {
    let msgs: Vec<cosmwasm_std::CosmosMsg> = response.messages.iter().map(to_host).collect();
    app.execute_multi(Addr::unchecked(TREASURY), msgs).unwrap()
}

struct Deployment {
    app: Chain,
    state: State,
    cw20: Addr,
    ping_pong: Addr,
    router: Addr,
    usdc: Addr,
}

fn mock_app() -> Deployment {
    let mut app = AppBuilder::default().with_stargate(StargateAccepting).build(
        |router, _, storage| {
            // init for App Owner a lot of balances
            router
                .bank
                .init_balance(
                    storage,
                    &Addr::unchecked("owner"),
                    vec![coin(INITIAL_BALANCE, "orai"), coin(INITIAL_BALANCE, "atom")],
                )
                .unwrap();
            router
                .bank
                .init_balance(
                    storage,
                    &Addr::unchecked("not_owner"),
                    vec![coin(INITIAL_BALANCE, "orai"), coin(INITIAL_BALANCE, "atom")],
                )
                .unwrap()
        },
    );

    let owner = Addr::unchecked("owner");
    let not_owner = Addr::unchecked("not_owner");
    let treasury = Addr::unchecked(TREASURY);

    let cw20 = store_cw20(&mut app, &owner, INITIAL_BALANCE);
    let ping_pong = store_ping_pong(&mut app, &owner);
    let usdc = store_cw20(&mut app, &not_owner, INITIAL_BALANCE * 10);
    let router = store_router(&mut app, &owner, &usdc);

    let (state, _) = instantiate(InstantiateMsg {
        owner: owner.to_string(),
        distribute_token: usdc.to_string(),
        router: Some(router.to_string()),
        init_distribution_targets: vec![
            DistributeTarget {
                weight: 40,
                addr: ping_pong.to_string(),
                msg_hook: Some(Cw20Hook::Ping {}.to_json()),
            },
            DistributeTarget { weight: 60, addr: "finance".to_string(), msg_hook: None },
        ],
        executors: vec![owner.to_string()],
    });

    // send token to router and owner
    cw20_transfer(&mut app, &usdc, &not_owner, &router, INITIAL_BALANCE * 2);
    cw20_transfer(&mut app, &usdc, &not_owner, &owner, INITIAL_BALANCE * 2);

    // what the authorized send of the approver's native funds would bring in
    app.send_tokens(not_owner, treasury, &[coin(999999999999000000, "orai")]).unwrap();

    Deployment { app, state, cw20, ping_pong, router, usdc }
}

fn distribute_token(
    app: &mut Chain,
    state: &mut State,
    usdc: &Addr,
    sender: &str,
    amount_distribute: u128,
) -> Result<Vec<AppResponse>, ContractError> {
    let host = HostAnswers {
        distribute_token_address: Some(usdc.to_string()),
        contract_balance: cw20_balance(app, usdc, &Addr::unchecked(TREASURY)).u128(),
        approver_balances: vec![],
    };
    let response = execute(
        state,
        &Env { contract_address: TREASURY.to_string() },
        &MessageInfo { sender: sender.to_string() },
        ExecuteMsg::Distribute { amount_distribute },
        &host,
    )?;
    Ok(run_batch(app, &response))
}

#[test]
fn test_distribute_happy_path() {
    let owner = Addr::unchecked("owner");
    let finance = Addr::unchecked("finance");
    let treasury = Addr::unchecked(TREASURY);
    let distribute_amount = Uint128::from(100u64);
    let Deployment { mut app, mut state, ping_pong, usdc, .. } = mock_app();

    cw20_transfer(&mut app, &usdc, &owner, &treasury, 100);

    let treasury_balance = cw20_balance(&app, &usdc, &treasury);
    assert_eq!(treasury_balance, distribute_amount);

    let res =
        distribute_token(&mut app, &mut state, &usdc, "owner", distribute_amount.u128()).unwrap();

    let ping_event = res
        .into_iter()
        .flat_map(|r| r.events)
        .filter(|event| event.ty == "wasm" && event.attributes[1].value == "ping")
        .collect::<Vec<Event>>();

    // assert the ping event is emitted
    assert!(!ping_event.is_empty());

    assert_eq!(cw20_balance(&app, &usdc, &treasury), Uint128::zero());
    assert_eq!(cw20_balance(&app, &usdc, &ping_pong), Uint128::from(40u128));
    assert_eq!(cw20_balance(&app, &usdc, &finance), Uint128::from(60u128));
}

#[test]
fn test_exceed_balance_distribute() {
    // arrange
    let owner = Addr::unchecked("owner");
    let treasury = Addr::unchecked(TREASURY);
    let distribute_amount = Uint128::from(100u64);

    let Deployment { mut app, mut state, cw20, usdc, .. } = mock_app();
    let owner_balance = cw20_balance(&app, &cw20, &owner);

    println!("owner balance: {:?}", owner_balance);

    // act
    cw20_transfer(&mut app, &cw20, &owner, &treasury, 100);

    let err = distribute_token(
        &mut app,
        &mut state,
        &usdc,
        "owner",
        distribute_amount.checked_add(Uint128::from(1u64)).unwrap().u128(),
    )
    .unwrap_err();

    // assert
    assert_eq!(err, ContractError::ExceedContractBalance {});
}

#[test]
fn distribute_rounds_down_and_keeps_the_rest() {
    let owner = Addr::unchecked("owner");
    let treasury = Addr::unchecked(TREASURY);
    let Deployment { mut app, mut state, ping_pong, usdc, .. } = mock_app();

    execute(
        &mut state,
        &Env { contract_address: TREASURY.to_string() },
        &MessageInfo { sender: "owner".to_string() },
        ExecuteMsg::UpdateDistributeTarget {
            distribute_targets: vec![
                DistributeTarget { weight: 33, addr: "first".to_string(), msg_hook: None },
                DistributeTarget {
                    weight: 33,
                    addr: ping_pong.to_string(),
                    msg_hook: Some(Cw20Hook::Ping {}.to_json()),
                },
                DistributeTarget { weight: 33, addr: "third".to_string(), msg_hook: None },
            ],
        },
        &HostAnswers {
            distribute_token_address: None,
            contract_balance: 0,
            approver_balances: vec![],
        },
    )
    .unwrap();

    cw20_transfer(&mut app, &usdc, &owner, &treasury, 100);
    distribute_token(&mut app, &mut state, &usdc, "owner", 100).unwrap();

    assert_eq!(cw20_balance(&app, &usdc, &Addr::unchecked("first")), Uint128::new(33));
    assert_eq!(cw20_balance(&app, &usdc, &ping_pong), Uint128::new(33));
    assert_eq!(cw20_balance(&app, &usdc, &Addr::unchecked("third")), Uint128::new(33));
    assert_eq!(cw20_balance(&app, &usdc, &treasury), Uint128::new(1));
}

fn one_hop(offer: AssetInfo, usdc: &Addr) -> CollectFeeRequirement {
    CollectFeeRequirement {
        approver: "owner".to_string(),
        swap_operations: vec![SwapOperation::OraiSwap {
            offer_asset_info: offer,
            ask_asset_info: AssetInfo::Token { contract_addr: usdc.to_string() },
        }],
        minimum_receive: None,
    }
}

// the host looks up what the approver holds of the asset
fn approver_balance(app: &Chain, requirement: &CollectFeeRequirement) -> u128 {
    let approver = Addr::unchecked(requirement.approver.clone());
    match requirement.offer_asset() {
        Some(AssetInfo::Token { contract_addr }) => {
            cw20_balance(app, &Addr::unchecked(contract_addr.clone()), &approver).u128()
        }
        Some(AssetInfo::NativeToken { denom }) => {
            app.wrap().query_balance(approver, denom.clone()).unwrap().amount.u128()
        }
        None => 0,
    }
}

#[test]
fn test_collect_fees_balance_distribute() {
    // arrange
    let owner = Addr::unchecked("owner");
    let treasury = Addr::unchecked(TREASURY);
    let Deployment { mut app, mut state, cw20, router, usdc, .. } = mock_app();

    app.execute_contract(
        owner.clone(),
        cw20.clone(),
        &Cw20ExecuteMsg::IncreaseAllowance {
            spender: treasury.to_string(),
            amount: Uint128::from(INITIAL_BALANCE),
            expires: None,
        },
        &[],
    )
    .unwrap();

    app.execute_contract(
        owner.clone(),
        usdc.clone(),
        &Cw20ExecuteMsg::IncreaseAllowance {
            spender: treasury.to_string(),
            amount: Uint128::from(INITIAL_BALANCE * 10),
            expires: None,
        },
        &[],
    )
    .unwrap();

    let collect_fee_requirements = vec![
        one_hop(AssetInfo::NativeToken { denom: "orai".to_string() }, &usdc),
        one_hop(AssetInfo::Token { contract_addr: cw20.to_string() }, &usdc),
        one_hop(AssetInfo::Token { contract_addr: usdc.to_string() }, &usdc),
    ];
    let host = HostAnswers {
        distribute_token_address: Some(usdc.to_string()),
        contract_balance: 0,
        approver_balances: collect_fee_requirements
            .iter()
            .map(|requirement| approver_balance(&app, requirement))
            .collect(),
    };
    assert_eq!(
        asset_info_from_string(usdc.to_string(), host.distribute_token_address.clone()),
        AssetInfo::Token { contract_addr: usdc.to_string() }
    );

    //act
    let response = execute(
        &mut state,
        &Env { contract_address: TREASURY.to_string() },
        &MessageInfo { sender: "owner".to_string() },
        ExecuteMsg::CollectFees { collect_fee_requirements },
        &host,
    )
    .unwrap();
    assert_eq!(response.messages.len(), 4);
    run_batch(&mut app, &response);

    // assert
    let balance = cw20_balance(&app, &cw20, &router);
    let native_balance = app.wrap().query_balance(&router, "orai").unwrap();
    let usdc_treasury_balance = cw20_balance(&app, &usdc, &treasury);
    assert_eq!(
        native_balance.amount,
        Uint128::from(INITIAL_BALANCE).checked_sub(Uint128::from(1000000u128)).unwrap()
    );
    assert_eq!(balance, Uint128::from(INITIAL_BALANCE));
    assert_eq!(
        usdc_treasury_balance,
        Uint128::from(INITIAL_BALANCE * 4).checked_sub(Uint128::from(1000000u128)).unwrap()
    );
}
