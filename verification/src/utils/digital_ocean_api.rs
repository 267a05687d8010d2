//! The DigitalOcean API: request bodies, headers, URLs, and the reading
//! of responses.

use vstd::prelude::*;
use crate::text::{decimal, decimal_string};
use crate::utils::config::EnvironmentConfig;

verus! {

/// The body of a droplet creation request.
#[derive(Debug)]
pub struct CreateDropletRequest {
    pub name: String,
    pub region: String,
    pub size: String,
    pub image: String,
    pub ssh_keys: Vec<String>,
    pub user_data: String,
}

/// The cloud-config script a new droplet runs.
pub open spec fn user_data_spec() -> Seq<char> {
    "\n#cloud-config\nruncmd:\n  - echo \"Hello from the cloud config\" > /root/hello-world.txt\n"@
}

/// The request that creates a droplet named `name`: a `c-4` machine in
/// `nyc3` from the `docker-18-04` image, with the configured SSH key and
/// the cloud-config script.
pub fn create_droplet_request(name: &str, env_config: &EnvironmentConfig) -> (r: CreateDropletRequest)
    ensures
        r.name@ == name@,
        r.region@ == "nyc3"@,
        r.size@ == "c-4"@,
        r.image@ == "docker-18-04"@,
        r.ssh_keys@.len() == 1,
        r.ssh_keys@[0]@ == env_config.digital_ocean_ssh_key_id@,
        r.user_data@ == user_data_spec(),
{
    let mut ssh_keys: Vec<String> = Vec::new();
    ssh_keys.push(env_config.digital_ocean_ssh_key_id.clone());
    CreateDropletRequest {
        name: String::from_str(name),
        region: String::from_str("nyc3"),
        size: String::from_str("c-4"),
        image: String::from_str("docker-18-04"),
        ssh_keys,
        user_data: String::from_str(
            "\n#cloud-config\nruncmd:\n  - echo \"Hello from the cloud config\" > /root/hello-world.txt\n",
        ),
    }
}

/// The value of the `Authorization` header: `Bearer ` and the token.
pub fn authorization_value(env_config: &EnvironmentConfig) -> (v: String)
    ensures
        v@ == "Bearer "@ + env_config.digital_ocean_token@,
{
    String::from_str("Bearer ").concat(env_config.digital_ocean_token.as_str())
}

/// The address of droplet `droplet_id`.
pub fn droplet_url(droplet_id: u64) -> (u: String)
    ensures
        u@ == "https://api.digitalocean.com/v2/droplets/"@ + decimal(droplet_id as nat),
{
    let id = decimal_string(droplet_id);
    String::from_str("https://api.digitalocean.com/v2/droplets/").concat(id.as_str())
}

/// What the API answers about one droplet.
#[derive(Debug)]
pub struct GetDropletResponse {
    pub droplet: DropletDetails,
}

#[derive(Debug)]
pub struct DropletDetails {
    pub id: u64,
    pub networks: DropletNetworks,
}

#[derive(Debug)]
pub struct DropletNetworks {
    pub v4: Vec<DropletAddress>,
}

#[derive(Debug)]
pub struct DropletAddress {
    pub ip_address: String,
}

/// The droplet's first IPv4 address.
pub fn droplet_ip_address(response: &GetDropletResponse) -> (ip: String)
    requires
        response.droplet.networks.v4@.len() > 0,
    ensures
        ip@ == response.droplet.networks.v4@[0].ip_address@,
{
    response.droplet.networks.v4[0].ip_address.clone()
}

} // verus!
