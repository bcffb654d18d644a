use mkvparser::driver::parse_elements;
use mkvparser::tree::{build_element_trees, ElementTree, MasterElement};
use mkvparser::{Body, Element, Header, Id, Unsigned};

fn unsigned(id: Id, v: u64) -> Element {
    Element { header: Header::new(id, 3, 1), body: Body::Unsigned(Unsigned::Standard(v)) }
}

#[test]
fn test_build_element_trees() {
    let elements = [
        Element { header: Header::new(Id::Ebml, 5, 31), body: Body::Master },
        unsigned(Id::EbmlVersion, 1),
        unsigned(Id::EbmlReadVersion, 1),
        unsigned(Id::EbmlMaxIdLength, 4),
        unsigned(Id::EbmlMaxSizeLength, 8),
        Element { header: Header::new(Id::DocType, 3, 4), body: Body::String("webm".to_string()) },
        unsigned(Id::DocTypeVersion, 4),
        unsigned(Id::DocTypeReadVersion, 2),
    ];

    let expected = vec![ElementTree::Master(MasterElement {
        header: Header::new(Id::Ebml, 5, 31),
        children: vec![
            ElementTree::Normal(unsigned(Id::EbmlVersion, 1)),
            ElementTree::Normal(unsigned(Id::EbmlReadVersion, 1)),
            ElementTree::Normal(unsigned(Id::EbmlMaxIdLength, 4)),
            ElementTree::Normal(unsigned(Id::EbmlMaxSizeLength, 8)),
            ElementTree::Normal(Element {
                header: Header::new(Id::DocType, 3, 4),
                body: Body::String("webm".to_string()),
            }),
            ElementTree::Normal(unsigned(Id::DocTypeVersion, 4)),
            ElementTree::Normal(unsigned(Id::DocTypeReadVersion, 2)),
        ],
    })];

    assert_eq!(build_element_trees(&elements), expected);
}

#[test]
fn scenario_ebml_header_tree() {
    const INPUT: &[u8] = &[
        0x1A, 0x45, 0xDF, 0xA3, 0x9F, 0x42, 0x86, 0x81, 0x01, 0x42, 0xF7, 0x81, 0x01, 0x42, 0xF2,
        0x81, 0x04, 0x42, 0xF3, 0x81, 0x08, 0x42, 0x82, 0x84, 0x77, 0x65, 0x62, 0x6D, 0x42, 0x87,
        0x81, 0x04, 0x42, 0x85, 0x81, 0x02,
    ];
    let elements = parse_elements(INPUT, false);
    assert_eq!(elements.len(), 8);
    let trees = build_element_trees(&elements);
    assert_eq!(trees.len(), 1);
    match &trees[0] {
        ElementTree::Master(m) => {
            assert_eq!(m.header.id, Id::Ebml);
            assert_eq!(m.children.len(), 7);
            let values: Vec<Body> = m
                .children
                .iter()
                .map(|c| match c {
                    ElementTree::Normal(e) => e.body.clone(),
                    ElementTree::Master(_) => panic!("unexpected master"),
                })
                .collect();
            assert_eq!(values[0], Body::Unsigned(Unsigned::Standard(1)));
            assert_eq!(values[2], Body::Unsigned(Unsigned::Standard(4)));
            assert_eq!(values[4], Body::String("webm".to_string()));
            assert_eq!(values[6], Body::Unsigned(Unsigned::Standard(2)));
        }
        ElementTree::Normal(_) => panic!("expected a master"),
    }
}

fn flatten(trees: &[ElementTree], out: &mut Vec<Element>) {
    for t in trees {
        match t {
            ElementTree::Normal(e) => out.push(e.clone()),
            ElementTree::Master(m) => {
                out.push(Element { header: m.header, body: Body::Master });
                flatten(&m.children, out);
            }
        }
    }
}

#[test]
fn flattening_gives_back_the_sequence() {
    let elements = vec![
        Element { header: Header::with_unknown_size(Id::Segment, 5), body: Body::Master },
        Element { header: Header::with_unknown_size(Id::Cluster, 5), body: Body::Master },
        unsigned(Id::Timecode, 0),
        Element { header: Header::with_unknown_size(Id::Cluster, 5), body: Body::Master },
        unsigned(Id::Timecode, 7),
        Element { header: Header::new(Id::Ebml, 5, 0), body: Body::Master },
    ];
    let trees = build_element_trees(&elements);
    // The second Cluster is no child of the first; the EBML header no child of anything.
    assert_eq!(trees.len(), 2);
    match &trees[0] {
        ElementTree::Master(segment) => {
            assert_eq!(segment.children.len(), 2);
        }
        ElementTree::Normal(_) => panic!("expected a master"),
    }
    let mut flat = Vec::new();
    flatten(&trees, &mut flat);
    assert_eq!(flat, elements);
}

#[test]
fn master_budget_and_truncation() {
    // A master of 4 body bytes takes one 4-byte child; the next element is a sibling.
    let elements = vec![
        Element { header: Header::new(Id::Info, 5, 4), body: Body::Master },
        unsigned(Id::TimecodeScale, 1),
        unsigned(Id::EbmlVersion, 1),
    ];
    let trees = build_element_trees(&elements);
    assert_eq!(trees.len(), 2);
    // A master whose children end early keeps what there is.
    let elements = vec![
        Element { header: Header::new(Id::Info, 5, 100), body: Body::Master },
        unsigned(Id::TimecodeScale, 1),
    ];
    let trees = build_element_trees(&elements);
    assert_eq!(trees.len(), 1);
    assert!(build_element_trees(&[]).is_empty());
}
