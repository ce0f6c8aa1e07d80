use flexcore::FlexcoreError;
use flexcore::Infrastructure;
use flexcore::InfrastructureBuilder;
use flexcore::Node;
use flexcore::Output;
use flexcore::Region;
use std::time::Duration;

struct Pulse {
    name: String,
    count: u32,
    out: Output<u32>,
}

impl Pulse {
    fn new(name: &str) -> Self {
        Pulse { name: name.to_string(), count: 0, out: Output::default() }
    }
}

impl Node for Pulse {
    fn name(&self) -> &String {
        &self.name
    }
    fn tick(&mut self) {
        self.count += 1;
        self.out.fire(self.count);
    }
    fn process_input(&mut self) {}
}

#[test]
fn builder_with_no_regions_is_rejected() {
    let result = InfrastructureBuilder::default().build();
    assert!(matches!(result, Err(FlexcoreError::NoRegions)));
}

#[test]
fn builder_rejects_a_region_without_nodes() {
    let result = InfrastructureBuilder::default()
        .with_region("empty".to_string(), Duration::from_millis(100))
        .build();
    assert!(matches!(result, Err(FlexcoreError::NoNodes)));
}

#[test]
fn finalize_rejects_no_regions() {
    let infra = Infrastructure::new();
    assert!(matches!(infra.into_regions(), Err(FlexcoreError::NoRegions)));
}

#[test]
fn finalize_rejects_a_region_without_nodes() {
    let mut infra = Infrastructure::new();
    infra.add_region(Region::new("bare".to_string(), Duration::from_millis(50)));
    assert!(matches!(infra.into_regions(), Err(FlexcoreError::NoNodes)));
}

#[test]
fn valid_builder_chain_yields_all_regions() {
    let infra = InfrastructureBuilder::default()
        .with_region("sensing".to_string(), Duration::from_millis(100))
        .with_node(Pulse::new("pulse-a"))
        .build()
        .unwrap()
        .with_region("crunching".to_string(), Duration::from_millis(300))
        .with_node(Pulse::new("pulse-b"))
        .with_node(Pulse::new("pulse-c"))
        .build()
        .unwrap()
        .build();
    let infra = match infra {
        Ok(infra) => infra,
        Err(_) => panic!("a populated configuration must build"),
    };
    assert_eq!(infra.num_regions(), 2);
    let regions = match infra.into_regions() {
        Ok(regions) => regions,
        Err(_) => panic!("a populated configuration must be schedulable"),
    };
    assert_eq!(regions.len(), 2);
    assert_eq!(regions[0].name().as_str(), "sensing");
    assert_eq!(regions[0].tick(), Duration::from_millis(100));
    assert_eq!(regions[0].num_nodes(), 1);
    assert_eq!(regions[1].name().as_str(), "crunching");
    assert_eq!(regions[1].num_nodes(), 2);
}

#[test]
fn region_accessors_report_the_configuration() {
    let mut region = Region::new("io".to_string(), Duration::from_millis(25));
    assert_eq!(region.name().as_str(), "io");
    assert_eq!(region.tick(), Duration::from_millis(25));
    assert_eq!(region.num_nodes(), 0);
    region.add_node(Pulse::new("pulse"));
    assert_eq!(region.num_nodes(), 1);
    region.add_node(Pulse::new("pulse-2"));
    assert_eq!(region.num_nodes(), 2);
    assert_eq!(region.nodes_mut().len(), 2);
    assert_eq!(region.nodes_mut()[0].name().as_str(), "pulse");
}

#[test]
fn old_style_assembly_succeeds_with_nodes() {
    let mut region = Region::new("only".to_string(), Duration::from_secs(1));
    region.add_node(Pulse::new("pulse"));
    let mut infra = Infrastructure::new();
    infra.add_region(region);
    assert_eq!(infra.num_regions(), 1);
    let regions = match infra.into_regions() {
        Ok(regions) => regions,
        Err(_) => panic!("a populated configuration must be schedulable"),
    };
    assert_eq!(regions.len(), 1);
    assert_eq!(regions[0].num_nodes(), 1);
}
