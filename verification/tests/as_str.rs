#![allow(non_snake_case)]

use base_traits::AsStr;
use std::rc::Rc;

#[allow(unused)]
fn as_AsStr<T: AsStr>(t: &T) -> &impl AsStr {
    t
}

#[derive(Debug)]
struct CustomType {
    s: String,
}

impl AsStr for CustomType {
    fn as_str(&self) -> &str {
        &self.s
    }
}

#[test]
fn TEST_AS_VALUE() {
    let ct = CustomType { s: "abc".into() };

    assert_eq!("abc", ct.as_str());

    let ct = &ct;

    assert_eq!("abc", ct.as_str());
}

#[test]
fn TEST_IN_Box() {
    {
        let v = CustomType { s: "abc".into() };
        let ct = Box::new(v);

        assert_eq!("abc", ct.as_str());

        let ct = &ct;

        assert_eq!("abc", ct.as_str());
    }

    {
        let v = CustomType { s: "abc".into() };
        let ct = &Box::new(v);

        assert_eq!("abc", ct.as_str());

        let ct = &ct;

        assert_eq!("abc", ct.as_str());
    }

    {
        let v = CustomType { s: "abc".into() };
        let ct = Box::new(&v);

        assert_eq!("abc", ct.as_str());

        let ct = &ct;

        assert_eq!("abc", ct.as_str());
    }

    {
        let v = CustomType { s: "abc".into() };
        let ct = &Box::new(&v);

        assert_eq!("abc", ct.as_str());

        let ct = &ct;

        assert_eq!("abc", ct.as_str());
    }
}

#[test]
fn TEST_IN_Rc() {
    {
        let v = CustomType { s: "abc".into() };
        let ct = Rc::new(v);

        assert_eq!("abc", ct.as_str());

        let ct = &ct;

        assert_eq!("abc", ct.as_str());
    }

    {
        let v = CustomType { s: "abc".into() };
        let ct = &Rc::new(v);

        assert_eq!("abc", ct.as_str());

        let ct = &ct;

        assert_eq!("abc", ct.as_str());
    }

    {
        let v = CustomType { s: "abc".into() };
        let ct = Rc::new(&v);

        assert_eq!("abc", ct.as_str());

        let ct = &ct;

        assert_eq!("abc", ct.as_str());
    }

    {
        let v = CustomType { s: "abc".into() };
        let ct = &Rc::new(&v);

        assert_eq!("abc", ct.as_str());

        let ct = &ct;

        assert_eq!("abc", ct.as_str());
    }
}
