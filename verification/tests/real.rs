use engine_rs::actors::mid_price::{mid_price, MidPrice, MidPriceActor, MidPriceResponse};
use engine_rs::actors::moving_average::MovingAverageActor;
use engine_rs::actors::risk::sharpe::{ReturnResponse, Sharpe};
use engine_rs::algos::single_pass::{mean, mean_centered_sum_squared, sum, Sqrt, Zero};
use engine_rs::binance_websocket::TickerMessage;
use engine_rs::policy_maker::{
    is_downward_trend, is_rising_trend, should_buy, should_sell, PolicyDecision, PolicyFrame,
    PolicyMaker,
};
use engine_rs::risk::Drawdown;
use engine_rs::trade::{Buy, Sell, TradeActor};
use engine_rs::util::{Double, MovingAverageMessage, Return};
use std::ops::{Add, Div, Mul, Sub};

/// Double-precision numbers as the number type of the pipeline.
#[derive(Clone, Copy, Debug, PartialEq, PartialOrd)]
struct Real(f64);

impl Add for Real {
    type Output = Real;

    fn add(self, rhs: Real) -> Real {
        Real(self.0 + rhs.0)
    }
}

impl Sub for Real {
    type Output = Real;

    fn sub(self, rhs: Real) -> Real {
        Real(self.0 - rhs.0)
    }
}

impl Mul for Real {
    type Output = Real;

    fn mul(self, rhs: Real) -> Real {
        Real(self.0 * rhs.0)
    }
}

impl Div for Real {
    type Output = Real;

    fn div(self, rhs: Real) -> Real {
        Real(self.0 / rhs.0)
    }
}

impl From<u32> for Real {
    fn from(n: u32) -> Real {
        Real(f64::from(n))
    }
}

impl Zero for Real {
    fn zero_spec() -> Real {
        Real(0.0)
    }

    fn zero() -> Real {
        Real(0.0)
    }
}

impl Sqrt for Real {
    fn sqrt_req(self) -> bool {
        true
    }

    fn sqrt_spec(self) -> Real {
        Real(self.0.sqrt())
    }

    fn sqrt(self) -> Real {
        Real(self.0.sqrt())
    }
}

fn ticker(bid: f64, ask: f64) -> TickerMessage<Real> {
    TickerMessage {
        update_id: 0,
        symbol: String::new(),
        best_bid_price: Real(bid),
        best_bid_qty: Real(0.0),
        best_ask_price: Real(ask),
        best_ask_qty: Real(0.0),
    }
}

fn price(value: f64) -> MidPrice<Real> {
    MidPrice { price: Real(value), symbol: "".to_owned() }
}

fn average_of(response: MidPriceResponse<Real>) -> f64 {
    match response {
        MidPriceResponse::MovingAverage(Real(f)) => f,
    }
}

fn ratio_of(response: ReturnResponse<Real>) -> Option<f64> {
    match response {
        ReturnResponse::SharpeRatio(Some(Real(f))) => Some(f),
        ReturnResponse::SharpeRatio(None) => None,
    }
}

#[test]
fn mid_price_positive() {
    let mut actor = MidPriceActor::new();
    let res = actor.handle(ticker(1.0, 1.5));
    assert_eq!(res.response, Real(1.25));
}

#[test]
fn mid_price_is_published_once_with_the_symbol() {
    let mut actor = MidPriceActor::new();
    let mut quote = ticker(20_000.5, 20_001.0);
    quote.symbol = "BTCUSDT".to_string();
    quote.update_id = 42;
    let res = actor.handle(quote);
    let signal = res.published.expect("one signal per quote");
    assert_eq!(signal.price, Real(20_000.75));
    assert_eq!(signal.price, res.response);
    assert_eq!(signal.symbol, "BTCUSDT");
}

#[test]
fn mid_price_of_real_numbers() {
    assert_eq!(mid_price(Real(0.0), Real(0.0)), Real(0.0));
    assert_eq!(mid_price(Real(-1.0), Real(1.0)), Real(0.0));
    assert_eq!(mid_price(Real(0.1), Real(0.2)), Real((0.1 + 0.2) / 2.0));
}

#[test]
fn moving_average_positive() {
    let mut addr = MovingAverageActor::<Real>::new(3).unwrap();
    let res = addr.handle(price(1.));
    assert_eq!(average_of(res.response), 0.);
    let res = addr.handle(price(2.));
    assert_eq!(average_of(res.response), 0.);
    let res = addr.handle(price(3.));
    assert_eq!(average_of(res.response), 2.);
    let res = addr.handle(price(4.));
    assert_eq!(average_of(res.response), 3.);
    let res = addr.handle(price(5.));
    assert_eq!(average_of(res.response), 4.);
    let res = addr.handle(price(6.));
    assert_eq!(average_of(res.response), 5.);
}

#[test]
fn moving_average_publishes_only_when_warm() {
    let mut stage = MovingAverageActor::<Real>::new(2).unwrap();
    assert!(stage.handle(price(1.5)).published.is_none());
    let first = stage.handle(price(2.5)).published.expect("the window is full");
    assert_eq!(first.0, Real(2.0));
    let second = stage.handle(price(4.5)).published.expect("the window slides");
    assert_eq!(second.0, Real(3.5));
    assert_eq!(stage.moving_average(), Real(3.5));
}

#[test]
fn divisor_is_one() {
    let mut sharpe_actor = Sharpe::<Real>::new(1).expect("valid args");
    let res = sharpe_actor.handle(Return(Real(1.)));
    assert_eq!(ratio_of(res.response), None);
    assert!(res.published.is_none());
}

#[test]
fn dividend_is_zero() {
    let mut sharpe_actor = Sharpe::<Real>::new(1).expect("valid args");
    sharpe_actor.handle(Return(Real(1.)));
}

#[test]
fn sharpe_window_of_one_divides_by_zero() {
    let mut stage = Sharpe::<Real>::new(1).expect("valid args");
    assert_eq!(stage.update(Real(1.)), None);
    // mean 1, squared spread 0, and the spread is 0 / 0
    let ratio = stage.update(Real(2.)).expect("warm");
    assert!(ratio.0.is_nan());
    assert_eq!(stage.mean(), Real(1.));
    assert_eq!(stage.s_squared(), Real(0.));
}

#[test]
fn sharpe_ratio_of_real_returns() {
    let mut stage = Sharpe::<Real>::new(2).expect("valid args");
    assert_eq!(stage.update(Real(1.)), None);
    assert_eq!(stage.update(Real(3.)), None);
    // from the buffer alone: mean 2, squared spread 1 + 1, ratio 2 / (sqrt(2) / 1)
    let first = stage.update(Real(100.)).expect("warm");
    assert_eq!(stage.mean(), Real(2.));
    assert_eq!(stage.s_squared(), Real(2.));
    assert_eq!(first, Real(2. / (2f64.sqrt() / 1.)));
    // mean 2 + (6 - 2) / 2 = 4, squared spread 2 + (6 - 2) * (6 - 4) = 10
    let second = stage.update(Real(6.)).expect("warm");
    assert_eq!(stage.mean(), Real(4.));
    assert_eq!(stage.s_squared(), Real(10.));
    assert_eq!(second, Real(4. / (10f64.sqrt() / 1.)));
}

#[test]
fn sharpe_publishes_each_ratio() {
    let mut stage = Sharpe::<Real>::new(1).expect("valid args");
    assert!(stage.handle(Return(Real(4.))).published.is_none());
    let out = stage.handle(Return(Real(5.)));
    let published = out.published.expect("a ratio is published");
    match out.response {
        ReturnResponse::SharpeRatio(Some(ratio)) => {
            assert_eq!(ratio.0.to_bits(), published.0 .0.to_bits())
        }
        ReturnResponse::SharpeRatio(None) => panic!("warm"),
    }
}

#[test]
fn test_drawdown() {
    let mut addr1 = Drawdown::<Real>::new();

    let res = addr1.handle(Double(Real(0.)));

    assert_eq!(res.response, Real(0.));

    let res = addr1.handle(Double(Real(1.)));

    assert_eq!(res.response, Real(0.));

    let res = addr1.handle(Double(Real(0.5)));

    assert_eq!(res.response, Real(0.5));

    let res = addr1.handle(Double(Real(0.)));

    assert_eq!(res.response, Real(1.));
}

#[test]
fn drawdown_publishes_on_every_call() {
    let mut stage = Drawdown::<Real>::new();
    for (value, expected) in [(2.0, 0.0), (2.0, 0.0), (1.5, 0.5), (1.75, 0.5), (3.0, 0.5), (2.0, 1.0)]
    {
        let out = stage.handle(Double(Real(value)));
        assert_eq!(out.response, Real(expected));
        assert_eq!(out.published.expect("published").0, Real(expected));
    }
}

#[test]
fn test_should_buy() {
    let sell = Sell {
        symbol: "btcusdt".to_string(),
        quantity: Real(0.1),
        price: Real(10.0),
        timestamp: 0,
    };

    let frame = PolicyFrame {
        symbol: "btcusdt".to_string(),
        moving_average_gradient: Real(1.0),
        true_price_gradient: Real(1.0),
        moving_average_price: Real(10.0),
        true_price: Real(20.0),
        prev_decision: Some(PolicyDecision::SellAction(sell)),
    };

    let result = should_buy(&frame);
    assert_eq!(
        result, true,
        "True price trending upwards and higher than avg price, should buy"
    );
}

#[test]
fn test_not_should_buy_again() {
    let buy = Buy {
        symbol: "btcusdt".to_string(),
        quantity: Real(0.1),
        price: Real(10.0),
        timestamp: 0,
    };

    let frame = PolicyFrame {
        symbol: "btcusdt".to_string(),
        moving_average_gradient: Real(1.0),
        true_price_gradient: Real(1.0),
        moving_average_price: Real(10.0),
        true_price: Real(20.0),
        prev_decision: Some(PolicyDecision::BuyAction(buy)),
    };

    let result = should_buy(&frame);
    assert_eq!(
        result, false,
        "Prev decision was already buy, should not buy again"
    );
}

#[test]
fn trends_need_both_gradients() {
    let frame = |average: f64, price: f64| PolicyFrame {
        symbol: "btcusdt".to_string(),
        moving_average_gradient: Real(average),
        true_price_gradient: Real(price),
        moving_average_price: Real(10.0),
        true_price: Real(10.0),
        prev_decision: None,
    };
    assert!(is_rising_trend(&frame(0.5, 0.25)));
    assert!(!is_rising_trend(&frame(0.5, 0.0)));
    assert!(!is_rising_trend(&frame(0.0, 0.5)));
    assert!(!is_rising_trend(&frame(-0.5, 0.5)));
    assert!(is_downward_trend(&frame(-0.5, -0.25)));
    assert!(!is_downward_trend(&frame(-0.5, 0.0)));
    assert!(!is_downward_trend(&frame(0.5, -0.5)));
    assert!(!should_buy(&frame(0.5, 0.5)));
    assert!(!should_sell(&frame(-0.5, -0.5)));
}

#[test]
fn orders_are_for_one_tenth() {
    let maker = PolicyMaker::<Real>::new();
    assert_eq!(maker.quantity(), Real(0.1));
}

#[test]
fn test_policy_buy() {
    let mut maker = PolicyMaker::<Real>::new();
    let mut gateway = TradeActor::new();

    maker.handle_mid_price(MidPrice { price: Real(100.), symbol: "BTCUSDT".to_string() });
    let out = maker.handle_moving_average_at(MovingAverageMessage(Real(10.)), 1_000);
    assert_eq!(out.response, Real(10.));
    let decision = out.published.expect("every average is decided on");
    match &decision {
        PolicyDecision::BuyAction(buy) => {
            assert_eq!(buy.symbol, "BTCUSDT");
            assert_eq!(buy.quantity, Real(0.1));
            assert_eq!(buy.price, Real(100.));
            assert_eq!(buy.timestamp, 1_000);
        }
        other => panic!("expected a buy, got {:?}", other),
    }
    let order = gateway.handle(&decision).expect("a buy is ordered");
    assert_eq!(order.symbol, "BTCUSDT");
    assert_eq!(order.quantity, Some(Real(0.1)));
    assert_eq!(order.price, Some(Real(100.)));

    maker.handle_mid_price(MidPrice { price: Real(1000.), symbol: "BTCUSDT".to_string() });
    let out = maker.handle_moving_average_at(MovingAverageMessage(Real(100.)), 2_000);
    let decision = out.published.expect("every average is decided on");
    assert!(matches!(decision, PolicyDecision::HoldAction(_)));
    assert!(gateway.handle(&decision).is_none());
}

#[test]
fn real_folds() {
    assert_eq!(mean(Real(1.0), Real(2.0), 4), Real(1.25));
    assert_eq!(sum(vec![Real(0.5), Real(0.25)].into_iter()), Real(0.75));
    assert_eq!(
        mean_centered_sum_squared(vec![Real(1.0), Real(2.0), Real(4.5)].into_iter(), Real(2.5)),
        Real(1.5 * 1.5 + 0.5 * 0.5 + 2.0 * 2.0)
    );
}
