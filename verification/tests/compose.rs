use netmachines::compose::{Compose2, Compose2Seed, Compose3, Compose3Seed};
use netmachines::error::Error;
use netmachines::events::Events;
use netmachines::machine::Machine;
use netmachines::net::clear::{tcp_udp_tcp_translated, tcp_udp_udp_translated, TcpUdp, TcpUdpFactory};
use netmachines::net::secure::{TlsTcp, TlsTcpFactory, TlsTcpOrUdp, TlsUdp, TlsUdpFactory};
use netmachines::request::{SeedFactory, TranslateError};
use netmachines::response::Response;
use netmachines::scope::Scope;
use netmachines::time::Time;

struct Idle;

impl rotor::Machine for Idle {
    type Context = ();
    type Seed = rotor::Void;

    fn create(seed: rotor::Void, _scope: &mut rotor::Scope<()>) -> rotor::Response<Self, rotor::Void> {
        rotor::void::unreachable(seed)
    }
    fn ready(self, _events: rotor::EventSet, _scope: &mut rotor::Scope<()>) -> rotor::Response<Self, rotor::Void> {
        rotor::Response::ok(self)
    }
    fn spawned(self, _scope: &mut rotor::Scope<()>) -> rotor::Response<Self, rotor::Void> {
        rotor::Response::ok(self)
    }
    fn timeout(self, _scope: &mut rotor::Scope<()>) -> rotor::Response<Self, rotor::Void> {
        rotor::Response::ok(self)
    }
    fn wakeup(self, _scope: &mut rotor::Scope<()>) -> rotor::Response<Self, rotor::Void> {
        rotor::Response::ok(self)
    }
}

fn scope() -> Scope<Vec<String>> {
    let mut creator = rotor::Loop::<Idle>::new(&rotor::Config::new()).unwrap();
    let mut found = None;
    creator
        .add_machine_with(|scope| {
            found = Some(scope.notifier());
            rotor::Response::ok(Idle)
        })
        .unwrap();
    Scope::new(Time::from_millis(5), found.unwrap(), Vec::new())
}

/// A machine that notes its calls and answers as its number says.
#[derive(Debug, PartialEq)]
struct Numbered<const KIND: u8>(u32);

impl<const KIND: u8> Machine<Vec<String>> for Numbered<KIND> {
    type Seed = u32;

    fn create(seed: u32, scope: &mut Scope<Vec<String>>) -> Response<Self, rotor::Void> {
        scope.reactor.push(format!("create {} {}", KIND, seed));
        if seed == 0 {
            Response::Done
        } else {
            Response::Normal(Numbered(seed))
        }
    }

    fn ready(self, events: Events, scope: &mut Scope<Vec<String>>) -> Response<Self, u32> {
        scope.reactor.push(format!("ready {} {}", KIND, self.0));
        if events.readable {
            let seed = self.0 + 100;
            Response::Spawn(self, seed)
        } else if events.writable {
            Response::Deadline(self, scope.now())
        } else if events.error {
            Response::Error(Error::Tls)
        } else {
            Response::Normal(Numbered(self.0 + 1))
        }
    }

    fn spawned(self, scope: &mut Scope<Vec<String>>) -> Response<Self, u32> {
        scope.reactor.push(format!("spawned {} {}", KIND, self.0));
        Response::Normal(self)
    }

    fn timeout(self, scope: &mut Scope<Vec<String>>) -> Response<Self, u32> {
        scope.reactor.push(format!("timeout {} {}", KIND, self.0));
        Response::Done
    }

    fn wakeup(self, scope: &mut Scope<Vec<String>>) -> Response<Self, u32> {
        scope.reactor.push(format!("wakeup {} {}", KIND, self.0));
        Response::Normal(self)
    }
}

type Two = Compose2<Numbered<1>, Numbered<2>>;
type Three = Compose3<Numbered<1>, Numbered<2>, Numbered<3>>;

//------------ Compose2 --------------------------------------------------------

#[test]
fn compose2_creates_the_branch_of_the_seed() {
    let mut scope = scope();
    let res = <Two as Machine<Vec<String>>>::create(Compose2Seed::As(4), &mut scope);
    assert!(matches!(res, Response::Normal(Compose2::A(Numbered(4)))));
    let res = <Two as Machine<Vec<String>>>::create(Compose2Seed::Bs(5), &mut scope);
    assert!(matches!(res, Response::Normal(Compose2::B(Numbered(5)))));
    let res = <Two as Machine<Vec<String>>>::create(Compose2Seed::Bs(0), &mut scope);
    assert!(matches!(res, Response::Done));
    assert_eq!(scope.reactor, vec!["create 1 4", "create 2 5", "create 2 0"]);
}

#[test]
fn compose2_keeps_the_branch() {
    let mut scope = scope();
    let a: Two = Compose2::A(Numbered(1));
    let b: Two = Compose2::B(Numbered(7));
    let res = a.ready(Events::readable(), &mut scope);
    assert!(matches!(res, Response::Spawn(Compose2::A(Numbered(1)), Compose2Seed::As(101))));
    let res = b.ready(Events::readable(), &mut scope);
    let b = match res {
        Response::Spawn(m, Compose2Seed::Bs(107)) => m,
        _ => panic!("another answer"),
    };
    let res = b.spawned(&mut scope);
    let b = match res {
        Response::Normal(m) => m,
        _ => panic!("another answer"),
    };
    let res = b.ready(Events::writable(), &mut scope);
    let b = match res {
        Response::Deadline(m, at) => {
            assert_eq!(at, Time::from_millis(5));
            m
        }
        _ => panic!("another answer"),
    };
    let res = b.wakeup(&mut scope);
    let b = match res {
        Response::Normal(m) => m,
        _ => panic!("another answer"),
    };
    assert!(matches!(b, Compose2::B(Numbered(7))));
    let res = b.timeout(&mut scope);
    assert!(matches!(res, Response::Done));
    assert_eq!(
        scope.reactor,
        vec!["ready 1 1", "ready 2 7", "spawned 2 7", "ready 2 7", "wakeup 2 7", "timeout 2 7"]
    );
}

//------------ Compose3 --------------------------------------------------------

#[test]
fn compose3_creates_the_branch_of_the_seed() {
    let mut scope = scope();
    let res = <Three as Machine<Vec<String>>>::create(Compose3Seed::As(4), &mut scope);
    assert!(matches!(res, Response::Normal(Compose3::A(Numbered(4)))));
    let res = <Three as Machine<Vec<String>>>::create(Compose3Seed::Bs(5), &mut scope);
    assert!(matches!(res, Response::Normal(Compose3::B(Numbered(5)))));
    let res = <Three as Machine<Vec<String>>>::create(Compose3Seed::Cs(6), &mut scope);
    assert!(matches!(res, Response::Normal(Compose3::C(Numbered(6)))));
    assert_eq!(scope.reactor, vec!["create 1 4", "create 2 5", "create 3 6"]);
}

#[test]
fn compose3_keeps_the_branch() {
    let mut scope = scope();
    let a: Three = Compose3::A(Numbered(1));
    let b: Three = Compose3::B(Numbered(2));
    let c: Three = Compose3::C(Numbered(3));
    assert!(matches!(
        a.ready(Events::readable(), &mut scope),
        Response::Spawn(Compose3::A(Numbered(1)), Compose3Seed::As(101))
    ));
    assert!(matches!(
        b.ready(Events::readable(), &mut scope),
        Response::Spawn(Compose3::B(Numbered(2)), Compose3Seed::Bs(102))
    ));
    let res = c.ready(Events::readable(), &mut scope);
    let c = match res {
        Response::Spawn(m, Compose3Seed::Cs(103)) => m,
        _ => panic!("another answer"),
    };
    let c = match c.ready(Events::none(), &mut scope) {
        Response::Normal(m) => m,
        _ => panic!("another answer"),
    };
    assert!(matches!(c, Compose3::C(Numbered(4))));
    let c = match c.spawned(&mut scope) {
        Response::Normal(m) => m,
        _ => panic!("another answer"),
    };
    let c = match c.wakeup(&mut scope) {
        Response::Normal(m) => m,
        _ => panic!("another answer"),
    };
    assert!(matches!(c.timeout(&mut scope), Response::Done));
    assert_eq!(
        scope.reactor,
        vec![
            "ready 1 1",
            "ready 2 2",
            "ready 3 3",
            "ready 3 3",
            "spawned 3 4",
            "wakeup 3 4",
            "timeout 3 4"
        ]
    );
}

#[test]
fn compose3_hands_errors_on() {
    let mut scope = scope();
    let b: Three = Compose3::B(Numbered(2));
    assert!(matches!(b.ready(Events::error(), &mut scope), Response::Error(Error::Tls)));
}

//------------ TcpUdp, TlsTcp, TlsUdp --------------------------------------------

#[test]
fn tcp_udp_keeps_the_branch() {
    let mut scope = scope();
    type Both = TcpUdp<Numbered<1>, Numbered<2>>;
    let res = <Both as Machine<Vec<String>>>::create(TcpUdp::Udp(9), &mut scope);
    let udp = match res {
        Response::Normal(m) => m,
        _ => panic!("another answer"),
    };
    assert!(matches!(udp, TcpUdp::Udp(Numbered(9))));
    let res = udp.ready(Events::readable(), &mut scope);
    let udp = match res {
        Response::Spawn(m, TcpUdp::Udp(109)) => m,
        _ => panic!("another answer"),
    };
    let udp = match udp.spawned(&mut scope) {
        Response::Normal(m) => m,
        _ => panic!("another answer"),
    };
    let udp = match udp.wakeup(&mut scope) {
        Response::Normal(m) => m,
        _ => panic!("another answer"),
    };
    assert!(matches!(udp.timeout(&mut scope), Response::Done));
    let res = <Both as Machine<Vec<String>>>::create(TcpUdp::Tcp(3), &mut scope);
    let tcp = match res {
        Response::Normal(m) => m,
        _ => panic!("another answer"),
    };
    assert!(matches!(
        tcp.ready(Events::readable(), &mut scope),
        Response::Spawn(TcpUdp::Tcp(Numbered(3)), TcpUdp::Tcp(103))
    ));
    assert_eq!(
        scope.reactor,
        vec![
            "create 2 9",
            "ready 2 9",
            "spawned 2 9",
            "wakeup 2 9",
            "timeout 2 9",
            "create 1 3",
            "ready 1 3"
        ]
    );
}

#[test]
fn tls_tcp_keeps_the_branch() {
    let mut scope = scope();
    type Both = TlsTcp<Numbered<1>, Numbered<2>>;
    let res = <Both as Machine<Vec<String>>>::create(TlsTcp::Tls(9), &mut scope);
    let tls = match res {
        Response::Normal(m) => m,
        _ => panic!("another answer"),
    };
    let res = tls.ready(Events::readable(), &mut scope);
    assert!(matches!(res, Response::Spawn(TlsTcp::Tls(Numbered(9)), TlsTcp::Tls(109))));
    let tcp: Both = TlsTcp::Tcp(Numbered(4));
    let tcp = match tcp.wakeup(&mut scope) {
        Response::Normal(m) => m,
        _ => panic!("another answer"),
    };
    let tcp = match tcp.spawned(&mut scope) {
        Response::Normal(m) => m,
        _ => panic!("another answer"),
    };
    assert!(matches!(tcp, TlsTcp::Tcp(Numbered(4))));
    assert!(matches!(tcp.timeout(&mut scope), Response::Done));
}

#[test]
fn tls_udp_keeps_the_branch() {
    let mut scope = scope();
    type Both = TlsUdp<Numbered<1>, Numbered<2>>;
    let res = <Both as Machine<Vec<String>>>::create(TlsUdp::Udp(9), &mut scope);
    let udp = match res {
        Response::Normal(m) => m,
        _ => panic!("another answer"),
    };
    let res = udp.ready(Events::readable(), &mut scope);
    assert!(matches!(res, Response::Spawn(TlsUdp::Udp(Numbered(9)), TlsUdp::Udp(109))));
    let tls: Both = TlsUdp::Tls(Numbered(4));
    let tls = match tls.wakeup(&mut scope) {
        Response::Normal(m) => m,
        _ => panic!("another answer"),
    };
    let tls = match tls.spawned(&mut scope) {
        Response::Normal(m) => m,
        _ => panic!("another answer"),
    };
    assert!(matches!(tls, TlsUdp::Tls(Numbered(4))));
    assert!(matches!(tls.timeout(&mut scope), Response::Done));
}

#[test]
fn tls_tcp_or_udp_has_three_branches() {
    let all: Vec<TlsTcpOrUdp<u8, u16, u32>> =
        vec![TlsTcpOrUdp::Tls(1), TlsTcpOrUdp::Tcp(2), TlsTcpOrUdp::Udp(3)];
    assert!(matches!(all[0], TlsTcpOrUdp::Tls(1)));
    assert!(matches!(all[1], TlsTcpOrUdp::Tcp(2)));
    assert!(matches!(all[2], TlsTcpOrUdp::Udp(3)));
}

//------------ Factories -------------------------------------------------------

/// Doubles even numbers and fails on odd ones.
struct Doubler;

impl SeedFactory<u32, u64> for Doubler {
    fn translate(&self, output: u32) -> Result<u64, TranslateError<u32>> {
        if output % 2 == 0 {
            Ok(u64::from(output) * 2)
        } else {
            Err(TranslateError(output, Error::NoSlabSpace))
        }
    }
}

/// Measures strings and fails on the empty one.
struct Measure;

impl SeedFactory<&'static str, usize> for Measure {
    fn translate(&self, output: &'static str) -> Result<usize, TranslateError<&'static str>> {
        if output.is_empty() {
            Err(TranslateError(output, Error::Tls))
        } else {
            Ok(output.len())
        }
    }
}

#[test]
fn tcp_udp_factory_translates_by_branch() {
    let factory = TcpUdpFactory::new(Doubler, Measure);
    assert!(matches!(factory.translate(TcpUdp::Tcp(4)), Ok(TcpUdp::Tcp(8))));
    assert!(matches!(factory.translate(TcpUdp::Udp("abc")), Ok(TcpUdp::Udp(3))));
    assert!(matches!(
        factory.translate(TcpUdp::Tcp(5)),
        Err(TranslateError(TcpUdp::Tcp(5), Error::NoSlabSpace))
    ));
    assert!(matches!(
        factory.translate(TcpUdp::Udp("")),
        Err(TranslateError(TcpUdp::Udp(""), Error::Tls))
    ));
}

#[test]
fn tls_tcp_factory_translates_by_branch() {
    let factory = TlsTcpFactory::new(Measure, Doubler);
    assert!(matches!(factory.translate(TlsTcp::Tls("ab")), Ok(TlsTcp::Tls(2))));
    assert!(matches!(factory.translate(TlsTcp::Tcp(6)), Ok(TlsTcp::Tcp(12))));
    assert!(matches!(
        factory.translate(TlsTcp::Tls("")),
        Err(TranslateError(TlsTcp::Tls(""), Error::Tls))
    ));
    assert!(matches!(
        factory.translate(TlsTcp::Tcp(7)),
        Err(TranslateError(TlsTcp::Tcp(7), Error::NoSlabSpace))
    ));
}

#[test]
fn tls_udp_factory_translates_by_branch() {
    let factory = TlsUdpFactory::new(Doubler, Measure);
    assert!(matches!(factory.translate(TlsUdp::Tls(2)), Ok(TlsUdp::Tls(4))));
    assert!(matches!(factory.translate(TlsUdp::Udp("x")), Ok(TlsUdp::Udp(1))));
    assert!(matches!(
        factory.translate(TlsUdp::Tls(1)),
        Err(TranslateError(TlsUdp::Tls(1), Error::NoSlabSpace))
    ));
    assert!(matches!(
        factory.translate(TlsUdp::Udp("")),
        Err(TranslateError(TlsUdp::Udp(""), Error::Tls))
    ));
}

#[test]
fn translated_tags_what_was_produced() {
    let seed: Result<TcpUdp<u8, u16>, TranslateError<TcpUdp<i8, i16>>> =
        tcp_udp_tcp_translated(Ok(7u8));
    assert!(matches!(seed, Ok(TcpUdp::Tcp(7))));
    let failed: Result<TcpUdp<u8, u16>, TranslateError<TcpUdp<i8, i16>>> =
        tcp_udp_tcp_translated(Err(TranslateError(-1i8, Error::Timeout)));
    assert!(matches!(failed, Err(TranslateError(TcpUdp::Tcp(-1), Error::Timeout))));
    let seed: Result<TcpUdp<u8, u16>, TranslateError<TcpUdp<i8, i16>>> =
        tcp_udp_udp_translated(Ok(9u16));
    assert!(matches!(seed, Ok(TcpUdp::Udp(9))));
    let failed: Result<TcpUdp<u8, u16>, TranslateError<TcpUdp<i8, i16>>> =
        tcp_udp_udp_translated(Err(TranslateError(-2i16, Error::Tls)));
    assert!(matches!(failed, Err(TranslateError(TcpUdp::Udp(-2), Error::Tls))));
}
