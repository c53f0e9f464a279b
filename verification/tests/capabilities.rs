use anon_sum::Either;
use anon_sum::Sum2;
use anon_sum::impls::Complete;
use anon_sum::impls::Completion;
use anon_sum::impls::Fault;
use anon_sum::impls::Produce;
use anon_sum::impls::Render;
use anon_sum::index::construct_0;
use anon_sum::index::construct_1;
use vstd::prelude::Seq;

// The `will_produce`, `outcome` and `rendered` members of the capability
// traits are ghost models: nothing ever calls them at run time, so the
// implementations here stub them out.

struct CountUp {
    next: i32,
    stop: i32,
}

impl Produce for CountUp {
    type Item = i32;

    fn will_produce(&self) -> Seq<i32> {
        panic!()
    }

    fn next(&mut self) -> Option<i32> {
        if self.next < self.stop {
            let v = self.next;
            self.next += 1;
            Some(v)
        } else {
            None
        }
    }
}

struct CountDown {
    next: i32,
}

impl Produce for CountDown {
    type Item = i32;

    fn will_produce(&self) -> Seq<i32> {
        panic!()
    }

    fn next(&mut self) -> Option<i32> {
        if self.next > 0 {
            let v = self.next;
            self.next -= 1;
            Some(v)
        } else {
            None
        }
    }
}

#[test]
fn produce_forwards_to_the_populated_branch() {
    let mut up: Sum2<CountUp, CountDown> = construct_0(CountUp { next: 3, stop: 5 });
    assert_eq!(up.next(), Some(3));
    assert_eq!(up.next(), Some(4));
    assert_eq!(up.next(), None);

    let mut down: Sum2<CountUp, CountDown> = construct_1(CountDown { next: 2 });
    assert_eq!(down.next(), Some(2));
    assert_eq!(down.next(), Some(1));
    assert_eq!(down.next(), None);
}

struct Immediate;

impl Complete for Immediate {
    type Output = ();

    fn outcome(&self) -> Option<()> {
        panic!()
    }

    fn poll(&mut self) -> Completion<()> {
        Completion::Done(())
    }
}

struct AfterOnePoll {
    polled: bool,
}

impl Complete for AfterOnePoll {
    type Output = ();

    fn outcome(&self) -> Option<()> {
        panic!()
    }

    fn poll(&mut self) -> Completion<()> {
        if self.polled {
            Completion::Done(())
        } else {
            self.polled = true;
            Completion::Pending
        }
    }
}

#[test]
fn asynchronous() {
    let mut fut: Sum2<Immediate, AfterOnePoll> = if true {
        construct_0(Immediate)
    } else {
        construct_1(AfterOnePoll { polled: false })
    };
    loop {
        match fut.poll() {
            Completion::Pending => continue,
            Completion::Done(()) => break,
        }
    }
}

#[test]
fn pending_sum_is_polled_again_on_the_same_branch() {
    let mut fut: Sum2<Immediate, AfterOnePoll> = construct_1(AfterOnePoll { polled: false });
    assert!(matches!(fut.poll(), Completion::Pending));
    assert!(matches!(fut, Either::Second(Either::First(_))));
    assert!(matches!(fut.poll(), Completion::Done(())));
}

struct Greeting;

impl Render for Greeting {
    fn rendered(&self) -> Seq<char> {
        panic!()
    }

    fn render(&self) -> String {
        String::from("hello")
    }
}

impl Fault for Greeting {}

struct Parting;

impl Render for Parting {
    fn rendered(&self) -> Seq<char> {
        panic!()
    }

    fn render(&self) -> String {
        String::from("bye")
    }
}

impl Fault for Parting {}

fn describe_fault<F: Fault>(f: &F) -> String {
    f.render()
}

#[test]
fn render_forwards_to_the_populated_branch() {
    let hello: Sum2<Greeting, Parting> = construct_0(Greeting);
    let bye: Sum2<Greeting, Parting> = construct_1(Parting);
    assert_eq!(hello.render(), "hello");
    assert_eq!(bye.render(), "bye");
}

#[test]
fn a_sum_of_faults_is_a_fault() {
    let fault: Sum2<Greeting, Parting> = construct_1(Parting);
    assert_eq!(describe_fault(&fault), "bye");
}
