#![allow(non_snake_case)]

use base_traits::Len;
use std::collections::BTreeMap;
use std::collections::BTreeSet;
use std::collections::HashMap;
use std::collections::HashSet;
use std::collections::VecDeque;
use std::path::Path;
use std::path::PathBuf;
use std::rc::Rc;

#[allow(unused)]
fn as_Len<T: Len>(t: &T) -> &impl Len {
    t
}

#[derive(Debug)]
struct CustomType {
    num_elements: usize,
}

impl Len for CustomType {
    fn len(&self) -> usize {
        self.num_elements
    }
}

#[test]
fn len_TEST_WHEN_ZERO_ELEMENTS() {
    let ct = CustomType { num_elements: 0 };

    assert_eq!(0, ct.len());

    let ct = &ct;

    assert_eq!(0, ct.len());
}

#[test]
fn len_TEST_WHEN_HAVE_ELEMENTS() {
    let ct = CustomType { num_elements: 1 };

    assert_ne!(0, ct.len());

    let ct = &ct;

    assert_ne!(0, ct.len());
}

#[test]
fn len_TEST_EMPTY() {
    // str
    {
        let s = "";

        assert_eq!(0, s.len());

        let ie = as_Len(&s);

        assert_eq!(0, ie.len());
    }

    // Array
    {
        let ar: [i64; 0] = [];

        assert_eq!(0, ar.len());

        let ie = as_Len(&ar);

        assert_eq!(0, ie.len());
    }

    // Slice
    {
        let ar: &[i64; 0] = &[];

        assert_eq!(0, ar.len());

        let ie = as_Len(&ar);

        assert_eq!(0, ie.len());
    }

    // BTreeMap
    {
        let v: BTreeMap<i32, i32> = Default::default();

        assert_eq!(0, v.len());

        let ie = as_Len(&v);

        assert_eq!(0, ie.len());
    }

    // BTreeSet
    {
        let v: BTreeSet<i32> = Default::default();

        assert_eq!(0, v.len());

        let ie = as_Len(&v);

        assert_eq!(0, ie.len());
    }

    // HashMap
    {
        let v: HashMap<i32, i32> = Default::default();

        assert_eq!(0, v.len());

        let ie = as_Len(&v);

        assert_eq!(0, ie.len());
    }

    // HashSet
    {
        let v: HashSet<i32> = Default::default();

        assert_eq!(0, v.len());

        let ie = as_Len(&v);

        assert_eq!(0, ie.len());
    }

    // String
    {
        let s: String = "".into();

        assert_eq!(0, s.len());

        let ie = as_Len(&s);

        assert_eq!(0, ie.len());
    }

    // String in Box
    {
        let s: Box<String> = Box::new("".into());

        assert_eq!(0, s.len());

        let ie = as_Len(&s);

        assert_eq!(0, ie.len());
    }

    // String in Rc
    {
        let s: Rc<String> = Rc::new("".into());

        assert_eq!(0, s.len());

        let ie = as_Len(&s);

        assert_eq!(0, ie.len());
    }

    // Vec
    {
        let v: Vec<i32> = Default::default();

        assert_eq!(0, v.len());

        let ie = as_Len(&v);

        assert_eq!(0, ie.len());
    }

    // VecDeque
    {
        let v: VecDeque<i32> = Default::default();

        assert_eq!(0, v.len());

        let ie = as_Len(&v);

        assert_eq!(0, ie.len());
    }

    // Path
    {
        let p = Path::new("");

        assert_eq!(0, p.len());

        let ie = as_Len(&p);

        assert_eq!(0, ie.len());
    }

    // PathBuf
    {
        let p = PathBuf::new();

        assert_eq!(0, p.len());

        let ie = as_Len(&p);

        assert_eq!(0, ie.len());
    }
}

#[test]
fn len_TEST_NONEMPTY() {
    // str
    {
        let s = "abc";

        assert_ne!(0, s.len());

        let ie = as_Len(&s);

        assert_ne!(0, ie.len());
    }

    // Array
    {
        let ar: [i64; 1] = [ 0 ];

        assert_ne!(0, ar.len());

        let ie = as_Len(&ar);

        assert_ne!(0, ie.len());
    }

    // Slice
    {
        let ar = &[0];

        assert_ne!(0, ar.len());

        let ie = as_Len(&ar);

        assert_ne!(0, ie.len());
    }

    // BTreeMap
    {
        let v = BTreeMap::from_iter(vec![ (0, 0) ]);

        assert_ne!(0, v.len());

        let ie = as_Len(&v);

        assert_ne!(0, ie.len());
    }

    // BTreeSet
    {
        let v = BTreeSet::from_iter(vec![ 0 ]);

        assert_ne!(0, v.len());

        let ie = as_Len(&v);

        assert_ne!(0, ie.len());
    }

    // HashMap
    {
        let v = HashMap::from_iter(vec![ (0, 0) ]);

        assert_ne!(0, v.len());

        let ie = as_Len(&v);

        assert_ne!(0, ie.len());
    }

    // HashSet
    {
        let v = HashSet::from_iter(vec![ 0 ]);

        assert_ne!(0, v.len());

        let ie = as_Len(&v);

        assert_ne!(0, ie.len());
    }

    // String
    {
        let s: String = "abc".into();

        assert_ne!(0, s.len());

        let ie = as_Len(&s);

        assert_ne!(0, ie.len());
    }

    // String in Box
    {
        let s: Box<String> = Box::new("abc".into());

        assert_ne!(0, s.len());

        let ie = as_Len(&s);

        assert_ne!(0, ie.len());
    }

    // String in Rc
    {
        let s: Rc<String> = Rc::new("abc".into());

        assert_ne!(0, s.len());

        let ie = as_Len(&s);

        assert_ne!(0, ie.len());
    }

    // Vec
    {
        let v: Vec<i32> = vec![ 0 ];

        assert_ne!(0, v.len());

        let ie = as_Len(&v);

        assert_ne!(0, ie.len());
    }

    // VecDeque
    {
        let v = VecDeque::from_iter(vec![ 0 ]);

        assert_ne!(0, v.len());

        let ie = as_Len(&v);

        assert_ne!(0, ie.len());
    }
}

#[test]
fn len_TEST_NOTEMPTY() {
    // Path
    {
        let p = Path::new("./foo/bar.txt");

        assert_ne!(0, p.len());

        let ie = as_Len(&p);

        assert_ne!(0, ie.len());
    }

    // PathBuf
    {
        let mut p = PathBuf::new();

        p.push("./foo/bar.txt");

        assert_ne!(0, p.len());

        let ie = as_Len(&p);

        assert_ne!(0, ie.len());
    }
}
