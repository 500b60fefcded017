use fj_kernel::nodes::{GenericId, LeafNode, Node, Relation};

type Nodes = fj_kernel::nodes::Nodes<(), u8>;

#[test]
fn nodes_should_insert_leafs() {
    let mut nodes = Nodes::new();

    let leaf = 5;
    let id = nodes.insert_leaf(leaf);

    let mut expected_node = Node::Leaf(LeafNode { parent: None, leaf });

    assert_eq!(nodes.get(id), &expected_node);
    assert_eq!(nodes.get_mut(id), &mut expected_node);
}

#[test]
fn nodes_should_assign_new_id_when_adding_nodes() {
    let mut nodes = Nodes::new();

    let id_a = nodes.insert_leaf(5);
    let id_b = nodes.insert_leaf(8);

    assert_ne!(id_a, id_b);
}

#[test]
fn nodes_should_return_all_leafs() {
    let mut nodes = Nodes::new();

    let leaf_a = 5;
    let leaf_b = 8;

    let id_a = nodes.insert_leaf(leaf_a);
    let id_b = nodes.insert_leaf(leaf_b);

    let mut saw_a = false;
    let mut saw_b = false;

    for (id, leaf) in nodes.leafs() {
        if id == id_a && leaf == &leaf_a {
            saw_a = true;
        }
        if id == id_b && leaf == &leaf_b {
            saw_b = true;
        }
    }

    assert!(saw_a);
    assert!(saw_b);
}

#[test]
fn node_ids_count_up_from_zero() {
    let mut nodes = Nodes::new();
    assert_eq!(nodes.insert_leaf(1), GenericId(0));
    assert_eq!(nodes.insert_leaf(2), GenericId(1));
    assert_eq!(nodes.leafs().len(), 2);
}

#[test]
fn parent_can_be_set_through_the_node() {
    let mut nodes = Nodes::new();
    let a = nodes.insert_leaf(1);
    let b = nodes.insert_leaf(2);
    assert_eq!(nodes.get(b).parent(), &None);
    *nodes.get_mut(b).parent_mut() = Some(a);
    assert_eq!(nodes.get(b).parent(), &Some(a));
    assert_eq!(nodes.get(a).parent(), &None);
}

#[test]
fn leafs_skip_nothing_when_all_are_leafs() {
    let nodes = Nodes::new();
    assert!(nodes.leafs().is_empty());
    assert_ne!(Relation::Above, Relation::Below);
}
