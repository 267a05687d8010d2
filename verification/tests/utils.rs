use ruddy::utils::config::{get_environment_config, worker_meta, worker_name};
use ruddy::utils::digital_ocean_api::{
    authorization_value, create_droplet_request, droplet_ip_address, droplet_url, DropletAddress,
    DropletDetails, DropletNetworks, GetDropletResponse,
};

fn vars(pairs: &[(&str, &str)]) -> Vec<(String, String)> {
    pairs.iter().map(|(k, v)| (k.to_string(), v.to_string())).collect()
}

#[test]
fn environment_config_takes_last_values() {
    let c = get_environment_config(&vars(&[
        ("HOME", "/root"),
        ("DIGITAL_OCEAN_TOKEN", "first"),
        ("DIGITAL_OCEAN_SSH_KEY_ID", "123"),
        ("DIGITAL_OCEAN_TOKEN", "second"),
    ]));
    assert_eq!(c.digital_ocean_token, "second");
    assert_eq!(c.digital_ocean_ssh_key_id, "123");
}

#[test]
fn environment_config_defaults_to_empty() {
    let c = get_environment_config(&vars(&[("PATH", "/bin")]));
    assert_eq!(c.digital_ocean_token, "");
    assert_eq!(c.digital_ocean_ssh_key_id, "");
}

#[test]
fn droplet_request_body() {
    let c = get_environment_config(&vars(&[("DIGITAL_OCEAN_SSH_KEY_ID", "42"), ("DIGITAL_OCEAN_TOKEN", "tok")]));
    let r = create_droplet_request("ruddy-worker-x", &c);
    assert_eq!(r.name, "ruddy-worker-x");
    assert_eq!(r.region, "nyc3");
    assert_eq!(r.size, "c-4");
    assert_eq!(r.image, "docker-18-04");
    assert_eq!(r.ssh_keys, vec!["42".to_string()]);
    assert_eq!(
        r.user_data,
        "\n#cloud-config\nruncmd:\n  - echo \"Hello from the cloud config\" > /root/hello-world.txt\n"
    );
    assert_eq!(authorization_value(&c), "Bearer tok");
}

#[test]
fn droplet_urls() {
    assert_eq!(droplet_url(0), "https://api.digitalocean.com/v2/droplets/0");
    assert_eq!(droplet_url(3164494), "https://api.digitalocean.com/v2/droplets/3164494");
}

#[test]
fn first_ip_address() {
    let resp = GetDropletResponse {
        droplet: DropletDetails {
            id: 1,
            networks: DropletNetworks {
                v4: vec![
                    DropletAddress { ip_address: "10.0.0.1".to_string() },
                    DropletAddress { ip_address: "10.0.0.2".to_string() },
                ],
            },
        },
    };
    assert_eq!(droplet_ip_address(&resp), "10.0.0.1");
}

#[test]
fn worker_names() {
    assert_eq!(worker_name("abc"), "ruddy-worker-abc");
    let m = worker_meta("abc".to_string(), "1.2.3.4".to_string());
    assert_eq!((m.id.as_str(), m.name.as_str(), m.ip_address.as_str()), ("abc", "ruddy-worker-abc", "1.2.3.4"));
}
