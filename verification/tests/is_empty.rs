#![allow(non_snake_case)]

use base_traits::IsEmpty;
use std::collections::BTreeMap;
use std::collections::BTreeSet;
use std::collections::HashMap;
use std::collections::HashSet;
use std::collections::VecDeque;
use std::path::Path;
use std::path::PathBuf;
use std::rc::Rc;
use std::time::Duration;

#[allow(unused)]
fn as_IsEmpty<T: IsEmpty>(t: &T) -> &impl IsEmpty {
    t
}

#[derive(Debug)]
struct CustomType {
    num_elements: usize,
}

impl IsEmpty for CustomType {
    fn is_empty(&self) -> bool {
        0 == self.num_elements
    }
}

#[test]
fn is_empty_TEST_WHEN_ZERO_ELEMENTS() {
    let ct = CustomType { num_elements: 0 };

    assert!(ct.is_empty());

    let ct = &ct;

    assert!(ct.is_empty());
}

#[test]
fn is_empty_TEST_WHEN_HAVE_ELEMENTS() {
    let ct = CustomType { num_elements: 1 };

    assert!(!ct.is_empty());

    let ct = &ct;

    assert!(!ct.is_empty());
}

#[test]
fn is_empty_TEST_WHEN_ZERO_ELEMENTS_IN_Box() {
    {
        let ct = Box::new(CustomType { num_elements: 0 });

        assert!(ct.is_empty());

        let ct = &ct;

        assert!(ct.is_empty());
    }

    {
        let ct = &Box::new(CustomType { num_elements: 0 });

        assert!(ct.is_empty());

        let ct = &ct;

        assert!(ct.is_empty());
    }

    {
        let ct = Box::new(&CustomType { num_elements: 0 });

        assert!(ct.is_empty());

        let ct = &ct;

        assert!(ct.is_empty());
    }

    {
        let ct = &Box::new(&CustomType { num_elements: 0 });

        assert!(ct.is_empty());

        let ct = &ct;

        assert!(ct.is_empty());
    }
}

#[test]
fn is_empty_TEST_WHEN_ZERO_ELEMENTS_IN_Rc() {
    {
        let ct = Rc::new(CustomType { num_elements: 0 });

        assert!(ct.is_empty());

        let ct = &ct;

        assert!(ct.is_empty());
    }

    {
        let ct = &Rc::new(CustomType { num_elements: 0 });

        assert!(ct.is_empty());

        let ct = &ct;

        assert!(ct.is_empty());
    }

    {
        let ct = Rc::new(&CustomType { num_elements: 0 });

        assert!(ct.is_empty());

        let ct = &ct;

        assert!(ct.is_empty());
    }

    {
        let ct = &Rc::new(&CustomType { num_elements: 0 });

        assert!(ct.is_empty());

        let ct = &ct;

        assert!(ct.is_empty());
    }
}

#[test]
fn is_empty_TEST_EMPTY() {
    // str
    {
        let s = "";

        assert!(s.is_empty());

        let ie = as_IsEmpty(&s);

        assert!(ie.is_empty());
    }

    // Array
    {
        let ar: [i64; 0] = [];

        assert!(ar.is_empty());

        let ie = as_IsEmpty(&ar);

        assert!(ie.is_empty());
    }

    // Slice
    {
        let ar: &[i64; 0] = &[];

        assert!(ar.is_empty());

        let ie = as_IsEmpty(&ar);

        assert!(ie.is_empty());
    }

    // BTreeMap
    {
        let v: BTreeMap<i32, i32> = Default::default();

        assert!(v.is_empty());

        let ie = as_IsEmpty(&v);

        assert!(ie.is_empty());
    }

    // BTreeSet
    {
        let v: BTreeSet<i32> = Default::default();

        assert!(v.is_empty());

        let ie = as_IsEmpty(&v);

        assert!(ie.is_empty());
    }

    // HashMap
    {
        let v: HashMap<i32, i32> = Default::default();

        assert!(v.is_empty());

        let ie = as_IsEmpty(&v);

        assert!(ie.is_empty());
    }

    // HashSet
    {
        let v: HashSet<i32> = Default::default();

        assert!(v.is_empty());

        let ie = as_IsEmpty(&v);

        assert!(ie.is_empty());
    }

    // String
    {
        let s: String = "".into();

        assert!(s.is_empty());

        let ie = as_IsEmpty(&s);

        assert!(ie.is_empty());
    }

    // String in Box
    {
        let s: Box<String> = Box::new("".into());

        assert!(s.is_empty());

        let ie = as_IsEmpty(&s);

        assert!(ie.is_empty());
    }

    // Vec
    {
        let v: Vec<i32> = Default::default();

        assert!(v.is_empty());

        let ie = as_IsEmpty(&v);

        assert!(ie.is_empty());
    }

    // VecDeque
    {
        let v: VecDeque<i32> = Default::default();

        assert!(v.is_empty());

        let ie = as_IsEmpty(&v);

        assert!(ie.is_empty());
    }

    // Path
    {
        let p = Path::new("");

        assert!(p.is_empty());

        let ie = as_IsEmpty(&p);

        assert!(ie.is_empty());
    }

    // PathBuf
    {
        let p = PathBuf::new();

        assert!(p.is_empty());

        let ie = as_IsEmpty(&p);

        assert!(ie.is_empty());
    }

    // Range
    {
        let r = 0..0;

        assert!(r.is_empty());

        let ie = as_IsEmpty(&r);

        assert!(ie.is_empty());
    }

    // Duration
    {
        let d = Duration::from_micros(0);

        assert!(d.is_empty());

        let ie = as_IsEmpty(&d);

        assert!(ie.is_empty());
    }
}

#[test]
fn is_empty_TEST_NONEMPTY() {
    // str
    {
        let s = "abc";

        assert!(!s.is_empty());

        let ie = as_IsEmpty(&s);

        assert!(!ie.is_empty());
    }

    // Array
    {
        let ar: [i64; 1] = [ 0 ];

        assert!(!ar.is_empty());

        let ie = as_IsEmpty(&ar);

        assert!(!ie.is_empty());
    }

    // Slice
    {
        let ar = &[0];

        assert!(!ar.is_empty());

        let ie = as_IsEmpty(&ar);

        assert!(!ie.is_empty());
    }

    // BTreeMap
    {
        let v = BTreeMap::from_iter(vec![ (0, 0) ]);

        assert!(!v.is_empty());

        let ie = as_IsEmpty(&v);

        assert!(!ie.is_empty());
    }

    // BTreeSet
    {
        let v = BTreeSet::from_iter(vec![ 0 ]);

        assert!(!v.is_empty());

        let ie = as_IsEmpty(&v);

        assert!(!ie.is_empty());
    }

    // HashMap
    {
        let v = HashMap::from_iter(vec![ (0, 0) ]);

        assert!(!v.is_empty());

        let ie = as_IsEmpty(&v);

        assert!(!ie.is_empty());
    }

    // HashSet
    {
        let v = HashSet::from_iter(vec![ 0 ]);

        assert!(!v.is_empty());

        let ie = as_IsEmpty(&v);

        assert!(!ie.is_empty());
    }

    // String
    {
        let s: String = "abc".into();

        assert!(!s.is_empty());

        let ie = as_IsEmpty(&s);

        assert!(!ie.is_empty());
    }

    // String in Box
    {
        let s: Box<String> = Box::new("abc".into());

        assert!(!s.is_empty());

        let ie = as_IsEmpty(&s);

        assert!(!ie.is_empty());
    }

    // Vec
    {
        let v: Vec<i32> = vec![ 0 ];

        assert!(!v.is_empty());

        let ie = as_IsEmpty(&v);

        assert!(!ie.is_empty());
    }

    // VecDeque
    {
        let v = VecDeque::from_iter(vec![ 0 ]);

        assert!(!v.is_empty());

        let ie = as_IsEmpty(&v);

        assert!(!ie.is_empty());
    }

    // Range
    {
        let r = 0..1;

        assert!(!r.is_empty());

        let ie = as_IsEmpty(&r);

        assert!(!ie.is_empty());
    }

    // RangeFrom
    {
        let r = 0..;

        assert!(!r.is_empty());

        let ie = as_IsEmpty(&r);

        assert!(!ie.is_empty());
    }

    // RangeFull
    {
        let r = ..;

        assert!(!r.is_empty());

        let ie = as_IsEmpty(&r);

        assert!(!ie.is_empty());
    }

    // RangeInclusive
    {
        let r = 0..=1;

        assert!(!r.is_empty());

        let ie = as_IsEmpty(&r);

        assert!(!ie.is_empty());
    }

    // RangeTo
    {
        let r = ..1;

        assert!(!r.is_empty());

        let ie = as_IsEmpty(&r);

        assert!(!ie.is_empty());
    }

    // Duration
    {
        let d = Duration::from_micros(1);

        assert!(!d.is_empty());

        let ie = as_IsEmpty(&d);

        assert!(!ie.is_empty());
    }
}

#[test]
fn is_empty_TEST_NOTEMPTY() {
    // Path
    {
        let p = Path::new("./foo/bar.txt");

        assert!(!p.is_empty());

        let ie = as_IsEmpty(&p);

        assert!(!ie.is_empty());
    }

    // PathBuf
    {
        let mut p = PathBuf::new();

        p.push("./foo/bar.txt");

        assert!(!p.is_empty());

        let ie = as_IsEmpty(&p);

        assert!(!ie.is_empty());
    }
}
